//! What holds of exit handling as a whole.

use crate::bits::bit;
use crate::error::RvmError;
use crate::feature::{
    CpuIdResult, X86_CPUID_EXTENDED_FEATURE_FLAGS, X86_CPUID_HYP_BASE, X86_CPUID_KVM_FEATURES,
    X86_CPUID_MODEL_FEATURES, X86_CPUID_MON, X86_CPUID_PERFORMANCE_MONITORING,
    X86_CPUID_THERMAL_AND_POWER, X86_CPUID_XSAVE, X86_FEATURE_ACPI, X86_FEATURE_ARCH_CAPABILITIES,
    X86_FEATURE_DTS, X86_FEATURE_HWP, X86_FEATURE_HWP_ACT, X86_FEATURE_HWP_NOT,
    X86_FEATURE_HWP_PREF, X86_FEATURE_HW_FEEDBACK, X86_FEATURE_HYPERVISOR, X86_FEATURE_IBRS_IBPB,
    X86_FEATURE_INVPCID, X86_FEATURE_MON, X86_FEATURE_PDCM, X86_FEATURE_PERF_BIAS, X86_FEATURE_PT,
    X86_FEATURE_PTM, X86_FEATURE_SEP, X86_FEATURE_SSBD, X86_FEATURE_STIBP, X86_FEATURE_TM,
    X86_FEATURE_TM2, X86_FEATURE_VMX, X86_FEATURE_X2APIC,
};
use crate::memory::GuestPhysMemorySetTrait;
use crate::packet::RvmExitPacketInner;
use crate::structs::ExitReason;
use crate::trap_map::{may_find, Trap, TrapKind, TrapMap};
use crate::vcpu::{DeviceRequest, GuestState, PitTimer};
use crate::vmcs::{AutoVmcs, K_PROCBASED_CTLS2_INVPCID};
use crate::vmexit::cpuid::{
    answer, area_size, component_end, extends_area, is_answer, is_answered, is_host_xsave_size,
    restricted, word_of, EXTENDED_EBX_HIDDEN, EXTENDED_EBX_INVPCID, EXTENDED_EDX_HIDDEN,
    MODEL_EBX_APIC_ID, MODEL_ECX_HIDDEN, MODEL_ECX_SHOWN, MODEL_EDX_HIDDEN, MODEL_EDX_SHOWN, THERMAL_EAX_HIDDEN,
    THERMAL_ECX_HIDDEN, VENDOR_STRING, XSAVE_EAX_HIDDEN,
};
use crate::vmexit::info::{ExitInfo, IoInfo};
use crate::vmexit::io::carried;
use crate::vmexit::mmio::{is_too_long, mmio_is_handled};
use crate::vmexit::{exit_is_handled, ExitResult};
use spin::Mutex;
use std::sync::Arc;
use vstd::prelude::*;

verus! {

proof fn lemma_model_features(rbx: u64, rcx: u64, rdx: u64, apic_id: u64)
    by (bit_vector)
    requires
        rbx <= 0xffff_ffff,
        rcx <= 0xffff_ffff,
        rdx <= 0xffff_ffff,
        apic_id <= 0xff,
    ensures
        ((rbx & !MODEL_EBX_APIC_ID) | (apic_id << 24)) <= 0xffff_ffff,
        ((rbx & !MODEL_EBX_APIC_ID) | (apic_id << 24)) >> 24 == apic_id,
        ((rcx | MODEL_ECX_SHOWN) & !MODEL_ECX_HIDDEN) <= 0xffff_ffff,
        ((rdx | MODEL_EDX_SHOWN) & !MODEL_EDX_HIDDEN) <= 0xffff_ffff,
        bit((rcx | MODEL_ECX_SHOWN) & !MODEL_ECX_HIDDEN, 31),
        bit((rcx | MODEL_ECX_SHOWN) & !MODEL_ECX_HIDDEN, 21),
        !bit((rcx | MODEL_ECX_SHOWN) & !MODEL_ECX_HIDDEN, 3),
        !bit((rcx | MODEL_ECX_SHOWN) & !MODEL_ECX_HIDDEN, 5),
        !bit((rcx | MODEL_ECX_SHOWN) & !MODEL_ECX_HIDDEN, 8),
        !bit((rcx | MODEL_ECX_SHOWN) & !MODEL_ECX_HIDDEN, 15),
        bit((rdx | MODEL_EDX_SHOWN) & !MODEL_EDX_HIDDEN, 11),
        !bit((rdx | MODEL_EDX_SHOWN) & !MODEL_EDX_HIDDEN, 22),
        !bit((rdx | MODEL_EDX_SHOWN) & !MODEL_EDX_HIDDEN, 29),
{
}

/// Whatever the host is, a guest sees on the leaf of the model features that it runs under a
/// hypervisor, that it has an x2APIC and SYSENTER, and its own number as APIC ID; and it sees
/// neither VMX, nor MONITOR/MWAIT, nor PDCM, nor any thermal monitoring.
pub proof fn law_model_features(vmcs: AutoVmcs, before: GuestState, after: GuestState)
    requires
        before.rax as u32 == X86_CPUID_MODEL_FEATURES,
        is_answered(before.rax as u32, vmcs.virtual_processor_id),
        is_answer(vmcs, before, after),
    ensures
        bit(after.rcx, X86_FEATURE_HYPERVISOR as u64),
        bit(after.rcx, X86_FEATURE_X2APIC as u64),
        bit(after.rdx, X86_FEATURE_SEP as u64),
        after.rbx >> 24 == vmcs.virtual_processor_id - 1,
        !bit(after.rcx, X86_FEATURE_VMX as u64),
        !bit(after.rcx, X86_FEATURE_MON as u64),
        !bit(after.rcx, X86_FEATURE_PDCM as u64),
        !bit(after.rcx, X86_FEATURE_TM2 as u64),
        !bit(after.rdx, X86_FEATURE_TM as u64),
        !bit(after.rdx, X86_FEATURE_ACPI as u64),
{
    let (host, xsave_size) = choose|host: CpuIdResult, xsave_size: u32|
        after == #[trigger] answer(
            before.rax as u32,
            before.rcx as u32,
            host,
            xsave_size,
            vmcs,
            before,
        );
    lemma_model_features(
        host.ebx as u64,
        host.ecx as u64,
        host.edx as u64,
        (vmcs.virtual_processor_id - 1) as u64,
    );
}

proof fn lemma_thermal(rax: u64, rcx: u64)
    by (bit_vector)
    requires
        rax <= 0xffff_ffff,
        rcx <= 0xffff_ffff,
    ensures
        rax & !THERMAL_EAX_HIDDEN <= 0xffff_ffff,
        rcx & !THERMAL_ECX_HIDDEN <= 0xffff_ffff,
        rax & !XSAVE_EAX_HIDDEN <= 0xffff_ffff,
        !bit(rax & !XSAVE_EAX_HIDDEN, 3),
        !bit(rcx & !THERMAL_ECX_HIDDEN, 0),
        !bit(rcx & !THERMAL_ECX_HIDDEN, 3),
        !bit(rax & !THERMAL_EAX_HIDDEN, 0),
        !bit(rax & !THERMAL_EAX_HIDDEN, 6),
        !bit(rax & !THERMAL_EAX_HIDDEN, 7),
        !bit(rax & !THERMAL_EAX_HIDDEN, 8),
        !bit(rax & !THERMAL_EAX_HIDDEN, 9),
        !bit(rax & !THERMAL_EAX_HIDDEN, 10),
{
}

/// Whatever the host is, a guest sees no thermal sensor and no control of power on the leaf of
/// thermal and power management.
pub proof fn law_thermal_features(vmcs: AutoVmcs, before: GuestState, after: GuestState)
    requires
        before.rax as u32 == X86_CPUID_THERMAL_AND_POWER,
        is_answer(vmcs, before, after),
    ensures
        !bit(after.rax, X86_FEATURE_DTS as u64),
        !bit(after.rax, X86_FEATURE_PTM as u64),
        !bit(after.rax, X86_FEATURE_HWP as u64),
        !bit(after.rax, X86_FEATURE_HWP_NOT as u64),
        !bit(after.rax, X86_FEATURE_HWP_ACT as u64),
        !bit(after.rax, X86_FEATURE_HWP_PREF as u64),
        !bit(after.rcx, X86_FEATURE_HW_FEEDBACK as u64),
        !bit(after.rcx, X86_FEATURE_PERF_BIAS as u64),
{
    let (host, xsave_size) = choose|host: CpuIdResult, xsave_size: u32|
        after == #[trigger] answer(
            before.rax as u32,
            before.rcx as u32,
            host,
            xsave_size,
            vmcs,
            before,
        );
    lemma_thermal(host.eax as u64, host.ecx as u64);
}

proof fn lemma_extended_features(rbx: u64, rdx: u64)
    by (bit_vector)
    requires
        rbx <= 0xffff_ffff,
        rdx <= 0xffff_ffff,
    ensures
        rbx & !(EXTENDED_EBX_HIDDEN | EXTENDED_EBX_INVPCID) <= 0xffff_ffff,
        rbx & !EXTENDED_EBX_HIDDEN <= 0xffff_ffff,
        rdx & !EXTENDED_EDX_HIDDEN <= 0xffff_ffff,
        !bit(rbx & !(EXTENDED_EBX_HIDDEN | EXTENDED_EBX_INVPCID), 10),
        !bit(rbx & !(EXTENDED_EBX_HIDDEN | EXTENDED_EBX_INVPCID), 25),
        !bit(rbx & !EXTENDED_EBX_HIDDEN, 25),
        !bit(rdx & !EXTENDED_EDX_HIDDEN, 26),
        !bit(rdx & !EXTENDED_EDX_HIDDEN, 27),
        !bit(rdx & !EXTENDED_EDX_HIDDEN, 29),
        !bit(rdx & !EXTENDED_EDX_HIDDEN, 31),
{
}

/// Whatever the host is, a guest sees neither the processor trace nor the features whose MSRs are
/// not emulated on the leaf of the extended features, and `INVPCID` only where it may execute it.
pub proof fn law_extended_features(vmcs: AutoVmcs, before: GuestState, after: GuestState)
    requires
        before.rax as u32 == X86_CPUID_EXTENDED_FEATURE_FLAGS,
        is_answer(vmcs, before, after),
    ensures
        !bit(after.rbx, X86_FEATURE_PT as u64),
        !bit(after.rdx, X86_FEATURE_IBRS_IBPB as u64),
        !bit(after.rdx, X86_FEATURE_STIBP as u64),
        !bit(after.rdx, X86_FEATURE_SSBD as u64),
        !bit(after.rdx, X86_FEATURE_ARCH_CAPABILITIES as u64),
        bit(after.rbx, X86_FEATURE_INVPCID as u64) ==> vmcs.secondary_vm_exec_control
            & K_PROCBASED_CTLS2_INVPCID != 0,
{
    let (host, xsave_size) = choose|host: CpuIdResult, xsave_size: u32|
        after == #[trigger] answer(
            before.rax as u32,
            before.rcx as u32,
            host,
            xsave_size,
            vmcs,
            before,
        );
    lemma_extended_features(host.ebx as u64, host.edx as u64);
}

/// Whatever the host is, a guest sees the size of its own XSAVE area on the first subleaf of the
/// XSAVE leaf, and neither `XSAVES` nor `XRSTORS` on the second.
pub proof fn law_xsave_features(vmcs: AutoVmcs, before: GuestState, after: GuestState)
    requires
        before.rax as u32 == X86_CPUID_XSAVE,
        is_answer(vmcs, before, after),
    ensures
        before.rcx as u32 == 0 ==> exists|size: u32| #[trigger]
            is_host_xsave_size(before.xcr0, size) && after.rbx == size,
        before.rcx as u32 == 1 ==> !bit(after.rax, 3),
{
    let (host, xsave_size) = choose|host: CpuIdResult, xsave_size: u32|
        {
            &&& before.rcx as u32 == 0 ==> is_host_xsave_size(before.xcr0, xsave_size)
            &&& after == #[trigger] answer(
                before.rax as u32,
                before.rcx as u32,
                host,
                xsave_size,
                vmcs,
                before,
            )
        };
    lemma_thermal(host.eax as u64, host.ecx as u64);
}

proof fn lemma_masks_add_nothing(value: u64, shown: u64, hidden: u64, index: u64)
    by (bit_vector)
    ensures
        bit(value & !hidden, index) ==> bit(value, index),
        bit((value | shown) & !hidden, index) ==> bit(value, index) || bit(shown, index),
{
}

proof fn lemma_shown_features(index: u64)
    by (bit_vector)
    requires
        index < 64,
    ensures
        bit(MODEL_ECX_SHOWN, index) ==> index == 31 || index == 21,
        bit(MODEL_EDX_SHOWN, index) ==> index == 11,
{
}

/// On the leaves of features, a guest sees no feature that the host lacks, but for the hypervisor
/// bit, the x2APIC and SYSENTER.
pub proof fn law_guest_sees_no_more_than_host(
    leaf: u32,
    subleaf: u32,
    xsave_size: u32,
    vmcs: AutoVmcs,
    host: GuestState,
    index: u64,
)
    requires
        leaf == X86_CPUID_MODEL_FEATURES || leaf == X86_CPUID_THERMAL_AND_POWER || leaf
            == X86_CPUID_EXTENDED_FEATURE_FLAGS,
        index < 64,
    ensures
        ({
            let guest = restricted(leaf, subleaf, xsave_size, vmcs, host);
            &&& bit(guest.rax, index) ==> bit(host.rax, index)
            &&& leaf != X86_CPUID_MODEL_FEATURES && bit(guest.rbx, index) ==> bit(host.rbx, index)
            &&& bit(guest.rcx, index) ==> {
                ||| bit(host.rcx, index)
                ||| leaf == X86_CPUID_MODEL_FEATURES && (index == X86_FEATURE_HYPERVISOR || index
                    == X86_FEATURE_X2APIC)
            }
            &&& bit(guest.rdx, index) ==> {
                ||| bit(host.rdx, index)
                ||| leaf == X86_CPUID_MODEL_FEATURES && index == X86_FEATURE_SEP
            }
        }),
{
    lemma_shown_features(index);
    lemma_masks_add_nothing(host.rcx, MODEL_ECX_SHOWN, MODEL_ECX_HIDDEN, index);
    lemma_masks_add_nothing(host.rdx, MODEL_EDX_SHOWN, MODEL_EDX_HIDDEN, index);
    lemma_masks_add_nothing(host.rax, 0, THERMAL_EAX_HIDDEN, index);
    lemma_masks_add_nothing(host.rcx, 0, THERMAL_ECX_HIDDEN, index);
    lemma_masks_add_nothing(host.rbx, 0, EXTENDED_EBX_HIDDEN | EXTENDED_EBX_INVPCID, index);
    lemma_masks_add_nothing(host.rbx, 0, EXTENDED_EBX_HIDDEN, index);
    lemma_masks_add_nothing(host.rdx, 0, EXTENDED_EDX_HIDDEN, index);
}

/// `CPUID` answers in the low halves of `rax`, `rbx`, `rcx` and `rdx`, clears their high halves and
/// leaves every other register as it was.
pub proof fn law_cpuid_writes_four_registers(
    vmcs: AutoVmcs,
    before: GuestState,
    after: GuestState,
)
    requires
        is_answered(before.rax as u32, vmcs.virtual_processor_id),
        is_answer(vmcs, before, after),
    ensures
        after == before.with_abcd(after.rax, after.rbx, after.rcx, after.rdx),
        after.rax <= u32::MAX,
        after.rbx <= u32::MAX,
        after.rcx <= u32::MAX,
        after.rdx <= u32::MAX,
{
    let (host, xsave_size) = choose|host: CpuIdResult, xsave_size: u32|
        after == #[trigger] answer(
            before.rax as u32,
            before.rcx as u32,
            host,
            xsave_size,
            vmcs,
            before,
        );
    reveal_strlit("KVMKVMKVM\0\0\0");
    if before.rax as u32 == X86_CPUID_MODEL_FEATURES {
        lemma_model_features(
            host.ebx as u64,
            host.ecx as u64,
            host.edx as u64,
            (vmcs.virtual_processor_id - 1) as u64,
        );
    }
    lemma_thermal(host.eax as u64, host.ecx as u64);
    lemma_extended_features(host.ebx as u64, host.edx as u64);
}

/// A guest recognises KVM: on the leaf of the hypervisor, `rax` names the leaf of the KVM features,
/// and the other three registers spell the vendor string.
pub proof fn law_hypervisor_is_recognised(vmcs: AutoVmcs, before: GuestState, after: GuestState)
    requires
        before.rax as u32 == X86_CPUID_HYP_BASE,
        is_answer(vmcs, before, after),
    ensures
        after.rax == X86_CPUID_KVM_FEATURES,
        after.rbx == word_of(VENDOR_STRING@, 0),
        after.rcx == word_of(VENDOR_STRING@, 4),
        after.rdx == word_of(VENDOR_STRING@, 8),
        after.rbx == 0x4b4d_564b,
        after.rcx == 0x564b_4d56,
        after.rdx == 0x4d,
{
    reveal_strlit("KVMKVMKVM\0\0\0");
}

/// On the leaves of the hypervisor, of MONITOR/MWAIT and of performance monitoring, all hosts give
/// the same answer.
pub proof fn law_host_does_not_show(
    vmcs: AutoVmcs,
    before: GuestState,
    one: GuestState,
    other: GuestState,
)
    requires
        before.rax as u32 == X86_CPUID_HYP_BASE || before.rax as u32 == X86_CPUID_KVM_FEATURES
            || before.rax as u32 == X86_CPUID_MON || before.rax as u32
            == X86_CPUID_PERFORMANCE_MONITORING,
        is_answer(vmcs, before, one),
        is_answer(vmcs, before, other),
    ensures
        one == other,
{
}

/// The XSAVE area ends with the highest component that extends it, whatever the lower ones are.
pub proof fn law_xsave_area_ends_with_highest_component(
    xcr0: u64,
    leaves: Seq<CpuIdResult>,
    highest: int,
    last: int,
)
    requires
        2 <= highest <= last,
        extends_area(xcr0, leaves, highest),
        forall|i: int| highest < i <= last ==> !(#[trigger] extends_area(xcr0, leaves, i)),
    ensures
        area_size(xcr0, leaves, last) == component_end(leaves[highest - 2]),
    decreases last,
{
    if last > highest {
        assert(!extends_area(xcr0, leaves, last));
        law_xsave_area_ends_with_highest_component(xcr0, leaves, highest, last - 1);
    }
}

/// An XSAVE area that no component extends consists of the legacy region and the header.
pub proof fn law_smallest_xsave_area(xcr0: u64, leaves: Seq<CpuIdResult>, last: int)
    requires
        forall|i: int| 2 <= i <= last ==> !(#[trigger] extends_area(xcr0, leaves, i)),
    ensures
        area_size(xcr0, leaves, last) == 576,
    decreases last,
{
    if last >= 2 {
        assert(!extends_area(xcr0, leaves, last));
        law_smallest_xsave_area(xcr0, leaves, last - 1);
    }
}

/// The size of the XSAVE area depends on no bit of `xcr0` but those of the extended components.
pub proof fn law_xsave_area_ignores_other_bits(
    one: u64,
    other: u64,
    leaves: Seq<CpuIdResult>,
    last: int,
)
    requires
        forall|i: int| 2 <= i <= last ==> #[trigger] bit(one, i as u64) == bit(other, i as u64),
    ensures
        area_size(one, leaves, last) == area_size(other, leaves, last),
    decreases last,
{
    if last >= 2 {
        assert(bit(one, last as u64) == bit(other, last as u64));
        law_xsave_area_ignores_other_bits(one, other, leaves, last - 1);
    }
}

proof fn lemma_bytes(value: u64)
    by (bit_vector)
    ensures
        (value >> 0) & 0xff <= 0xff,
        (value >> 8) & 0xff <= 0xff,
        (value >> 16) & 0xff <= 0xff,
        (value >> 24) & 0xff <= 0xff,
        (value >> 0) & 0xff == value % 0x100,
        ((value >> 0) & 0xff) + ((value >> 8) & 0xff) * 0x100 == value % 0x1_0000,
        ((value >> 0) & 0xff) + ((value >> 8) & 0xff) * 0x100 + ((value >> 16) & 0xff) * 0x1_0000
            + ((value >> 24) & 0xff) * 0x100_0000 == value % 0x1_0000_0000,
{
}

/// The number that four bytes make, the first being the least significant.
pub open spec fn number_of(data: Seq<u8>) -> int {
    data[0] + data[1] * 0x100 + data[2] * 0x1_0000 + data[3] * 0x100_0000
}

/// A packet carries a write of one, two or four bytes whole: its bytes make the low part of `rax`
/// that the guest writes.
pub proof fn law_written_bytes_are_carried(io_info: IoInfo, rax: u64)
    requires
        !io_info.input,
    ensures
        io_info.access_size == 1 ==> number_of(carried(io_info, rax)) == rax % 0x100,
        io_info.access_size == 2 ==> number_of(carried(io_info, rax)) == rax % 0x1_0000,
        io_info.access_size == 4 ==> number_of(carried(io_info, rax)) == rax % 0x1_0000_0000,
{
    lemma_bytes(rax);
}

/// A packet of a read tells userspace nothing of the guest's registers.
pub proof fn law_read_carries_nothing(io_info: IoInfo, rax: u64)
    requires
        io_info.input,
    ensures
        number_of(carried(io_info, rax)) == 0,
{
}

/// What the handling of an access to memory returns tells what the access was: nothing where no
/// trap holds the address, and a packet with the key of the trap where it is emulated by userspace.
pub proof fn law_mmio_result_tells_the_access(
    exit_info: ExitInfo,
    guest_paddr: usize,
    gpm: &Arc<dyn GuestPhysMemorySetTrait>,
    traps: &Mutex<TrapMap>,
    before: AutoVmcs,
    after: AutoVmcs,
    r: ExitResult,
)
    requires
        mmio_is_handled(exit_info, guest_paddr, gpm, traps, before, after, r),
    ensures
        r == ExitResult::Ok(None) ==> {
            &&& may_find(traps, TrapKind::GuestTrapMem, guest_paddr, None)
            &&& after == before
        },
        r is Ok && r->Ok_0 is Some ==> exists|trap: Trap|
            {
                &&& #[trigger] may_find(
                    traps,
                    TrapKind::GuestTrapMem,
                    guest_paddr,
                    Some(trap),
                )
                &&& trap.kind is GuestTrapMem
                &&& trap.key == r->Ok_0->Some_0.key
            },
        r == ExitResult::Err(RvmError::Internal) <== is_too_long(exit_info),
{
}

/// Handling an exit writes two fields of the VMCS at most: it moves the guest behind the
/// instruction that caused the exit, or leaves it there; and it changes the controls on an
/// interrupt window alone, where the guest stays.
pub proof fn law_vmcs_changes(
    exit_info: ExitInfo,
    gpm: &Arc<dyn GuestPhysMemorySetTrait>,
    traps: &Mutex<TrapMap>,
    timer: PitTimer,
    vmcs: AutoVmcs,
    vmcs_after: AutoVmcs,
    guest: GuestState,
    guest_after: GuestState,
    requests: Seq<DeviceRequest>,
    requests_after: Seq<DeviceRequest>,
    r: ExitResult,
)
    requires
        exit_is_handled(
            exit_info,
            gpm,
            traps,
            timer,
            vmcs,
            vmcs_after,
            guest,
            guest_after,
            requests,
            requests_after,
            r,
        ),
    ensures
        exit_info.exit_reason != ExitReason::INTERRUPT_WINDOW ==> vmcs_after == vmcs || vmcs_after
            == vmcs.with_rip(exit_info.following_rip()),
        exit_info.exit_reason == ExitReason::INTERRUPT_WINDOW ==> vmcs_after
            == vmcs.with_interrupt_window_exiting(false),
        exit_info.exit_reason == ExitReason::INTERRUPT_WINDOW ==> vmcs_after == (AutoVmcs {
            cpu_based_vm_exec_control: vmcs.cpu_based_vm_exec_control & !0x4u32,
            ..vmcs
        }),
        exit_info.exit_reason != ExitReason::INTERRUPT_WINDOW ==> vmcs_after == (AutoVmcs {
            guest_rip: vmcs_after.guest_rip,
            ..vmcs
        }),
        vmcs_after.guest_rip != vmcs.guest_rip && exit_info.guest_rip
            + exit_info.exit_instruction_length <= usize::MAX ==> vmcs_after.guest_rip
            == exit_info.guest_rip + exit_info.exit_instruction_length,
{
}

/// Handling an exit changes no register of the guest but those that the instruction writes: the
/// four of `CPUID`, and `rax` of a hypercall and of a port access.
pub proof fn law_register_changes(
    exit_info: ExitInfo,
    gpm: &Arc<dyn GuestPhysMemorySetTrait>,
    traps: &Mutex<TrapMap>,
    timer: PitTimer,
    vmcs: AutoVmcs,
    vmcs_after: AutoVmcs,
    guest: GuestState,
    guest_after: GuestState,
    requests: Seq<DeviceRequest>,
    requests_after: Seq<DeviceRequest>,
    r: ExitResult,
)
    requires
        exit_is_handled(
            exit_info,
            gpm,
            traps,
            timer,
            vmcs,
            vmcs_after,
            guest,
            guest_after,
            requests,
            requests_after,
            r,
        ),
    ensures
        match exit_info.exit_reason {
            ExitReason::CPUID => guest_after == guest.with_abcd(
                guest_after.rax,
                guest_after.rbx,
                guest_after.rcx,
                guest_after.rdx,
            ),
            ExitReason::VMCALL | ExitReason::IO_INSTRUCTION => guest_after == guest.with_rax(
                guest_after.rax,
            ),
            _ => guest_after == guest,
        },
{
}

/// Handling an exit takes back no request that waits for the devices, and adds one at most.
pub proof fn law_requests_are_kept(
    exit_info: ExitInfo,
    gpm: &Arc<dyn GuestPhysMemorySetTrait>,
    traps: &Mutex<TrapMap>,
    timer: PitTimer,
    vmcs: AutoVmcs,
    vmcs_after: AutoVmcs,
    guest: GuestState,
    guest_after: GuestState,
    requests: Seq<DeviceRequest>,
    requests_after: Seq<DeviceRequest>,
    r: ExitResult,
)
    requires
        exit_is_handled(
            exit_info,
            gpm,
            traps,
            timer,
            vmcs,
            vmcs_after,
            guest,
            guest_after,
            requests,
            requests_after,
            r,
        ),
    ensures
        requests.is_prefix_of(requests_after),
        requests_after.len() <= requests.len() + 1,
        requests_after != requests ==> r == ExitResult::Ok(None),
{
    assert(requests + Seq::<DeviceRequest>::empty() =~= requests);
}

/// An exit is forwarded to userspace only if it is an access to a port or a violation of the
/// extended page tables; the packet is of the matching kind, and the guest goes on behind the
/// instruction.
pub proof fn law_forwarded_exits(
    exit_info: ExitInfo,
    gpm: &Arc<dyn GuestPhysMemorySetTrait>,
    traps: &Mutex<TrapMap>,
    timer: PitTimer,
    vmcs: AutoVmcs,
    vmcs_after: AutoVmcs,
    guest: GuestState,
    guest_after: GuestState,
    requests: Seq<DeviceRequest>,
    requests_after: Seq<DeviceRequest>,
    r: ExitResult,
)
    requires
        exit_is_handled(
            exit_info,
            gpm,
            traps,
            timer,
            vmcs,
            vmcs_after,
            guest,
            guest_after,
            requests,
            requests_after,
            r,
        ),
        r is Ok,
        r->Ok_0 is Some,
    ensures
        vmcs_after == vmcs.with_rip(exit_info.following_rip()),
        exit_info.guest_rip + exit_info.exit_instruction_length <= usize::MAX
            ==> vmcs_after.guest_rip == exit_info.guest_rip + exit_info.exit_instruction_length,
        match r->Ok_0->Some_0.inner {
            RvmExitPacketInner::Io(io) => {
                &&& exit_info.exit_reason == ExitReason::IO_INSTRUCTION
                &&& io.port == (exit_info.exit_qualification >> 16) & 0xffff
                &&& io.access_size == (exit_info.exit_qualification & 0x7) + 1
                &&& io.input == (exit_info.exit_qualification & 0x8 != 0)
                &&& io.string == (exit_info.exit_qualification & 0x10 != 0)
                &&& io.repeat == (exit_info.exit_qualification & 0x20 != 0)
            },
            RvmExitPacketInner::Mmio(mmio) => {
                &&& exit_info.exit_reason == ExitReason::EPT_VIOLATION
                &&& mmio.wf()
                &&& mmio.inst_len == exit_info.exit_instruction_length
                &&& mmio.addr == vmcs.guest_physical_address as usize
                &&& mmio.default_operand_size == 2 || mmio.default_operand_size == 4
                &&& mmio.default_operand_size == 4 <==> (vmcs.guest_cs_ar_bytes & 0x4000 != 0 || (
                vmcs.guest_ia32_efer & 0x400 != 0 && vmcs.guest_cs_ar_bytes & 0x2000 != 0))
            },
        },
{
    let q = exit_info.exit_qualification;
    assert(q & 0x7 <= 0x7 && (q >> 16) & 0xffff <= 0xffff) by (bit_vector);
}

/// Where a violation of the extended page tables is completed inside the hypervisor, nothing of
/// the guest has changed, so that it repeats the access.
pub proof fn law_resolved_page_fault_is_retried(
    exit_info: ExitInfo,
    gpm: &Arc<dyn GuestPhysMemorySetTrait>,
    traps: &Mutex<TrapMap>,
    timer: PitTimer,
    vmcs: AutoVmcs,
    vmcs_after: AutoVmcs,
    guest: GuestState,
    guest_after: GuestState,
    requests: Seq<DeviceRequest>,
    requests_after: Seq<DeviceRequest>,
)
    requires
        exit_info.exit_reason == ExitReason::EPT_VIOLATION,
        exit_is_handled(
            exit_info,
            gpm,
            traps,
            timer,
            vmcs,
            vmcs_after,
            guest,
            guest_after,
            requests,
            requests_after,
            ExitResult::Ok(None),
        ),
    ensures
        vmcs_after == vmcs,
        guest_after == guest,
        requests_after == requests,
        exit_info.exit_instruction_length <= 15,
{
}

/// Handling fails only on a violation of the extended page tables and on a reason that is not
/// handled; a reason that is not handled changes nothing.
pub proof fn law_failures(
    exit_info: ExitInfo,
    gpm: &Arc<dyn GuestPhysMemorySetTrait>,
    traps: &Mutex<TrapMap>,
    timer: PitTimer,
    vmcs: AutoVmcs,
    vmcs_after: AutoVmcs,
    guest: GuestState,
    guest_after: GuestState,
    requests: Seq<DeviceRequest>,
    requests_after: Seq<DeviceRequest>,
    r: ExitResult,
)
    requires
        exit_is_handled(
            exit_info,
            gpm,
            traps,
            timer,
            vmcs,
            vmcs_after,
            guest,
            guest_after,
            requests,
            requests_after,
            r,
        ),
        r is Err,
    ensures
        guest_after == guest,
        requests_after == requests,
        exit_info.exit_reason != ExitReason::EPT_VIOLATION ==> {
            &&& r == ExitResult::Err(RvmError::NotSupported)
            &&& vmcs_after == vmcs
            &&& exit_info.exit_reason != ExitReason::EXTERNAL_INTERRUPT
            &&& exit_info.exit_reason != ExitReason::INTERRUPT_WINDOW
            &&& exit_info.exit_reason != ExitReason::CPUID
            &&& exit_info.exit_reason != ExitReason::VMCALL
            &&& exit_info.exit_reason != ExitReason::IO_INSTRUCTION
        },
{
}

} // verus!
