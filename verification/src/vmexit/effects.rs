//! What handling an exit does, over the fields that the processor reports and those that the guest
//! sees afterwards.

use crate::error::{RvmError, RvmResult};
use crate::feature::{host_reports, CpuIdResult};
use crate::memory::GuestPhysMemorySetTrait;
use crate::packet::RvmExitPacketInner;
use crate::structs::ExitReason;
use crate::trap_map::{may_find, may_hit, Trap, TrapKind, TrapMap};
use crate::vcpu::{DeviceRequest, GuestState, PitTimer};
use crate::vmcs::AutoVmcs;
use crate::vmexit::cpuid::{
    answer, area_size, extends_area, host_query, host_reports_components, is_answer, is_answered,
    is_host_xsave_size, restricted,
};
use crate::vmexit::info::{ExitInfo, ExitInterruptionInfo, IoInfo};
use crate::vmexit::io::lemma_bytes;
use crate::vmexit::laws::{law_smallest_xsave_area, law_xsave_area_ends_with_highest_component};
use crate::vmexit::mmio::mmio_is_handled;
use crate::vmexit::{
    exit_is_handled, is_handled_exit, is_handled_if, is_report, ExitReport, ExitResult,
};
use spin::Mutex;
use std::sync::Arc;
use vstd::prelude::*;

verus! {

proof fn lemma_fields(intr_info: u32, qualification: usize)
    by (bit_vector)
    ensures
        intr_info & 0xff <= 0xff,
        (intr_info >> 8) & 0x7 <= 0x7,
        qualification & 0x7 <= 0x7,
        (qualification >> 16) & 0xffff <= 0xffff,
{
}

/// What is decoded of an exit are the fields that the processor reports, whole; the reason is the
/// one whose number stands in the low half of its field.
pub proof fn law_exit_is_decoded(vmcs: AutoVmcs, reason: ExitReason)
    ensures
        ({
            let info = ExitInfo::decoded(vmcs);
            &&& info.guest_rip == vmcs.guest_rip
            &&& info.exit_instruction_length == vmcs.vm_exit_instruction_len
            &&& info.exit_qualification == vmcs.exit_qualification
            &&& info.entry_failure == (vmcs.vm_exit_reason & 0x8000_0000 != 0)
            &&& reason.code() == vmcs.vm_exit_reason & 0xffff ==> info.exit_reason == reason
        }),
{
    let found = ExitReason::with_code(vmcs.vm_exit_reason & 0xffff);
    ExitReason::law_codes_are_distinct(reason, found);
}

/// What is decoded of an interruption and of a port access are the bits that the processor reports.
pub proof fn law_access_is_decoded(vmcs: AutoVmcs, qualification: usize)
    ensures
        ({
            let info = ExitInterruptionInfo::decoded(vmcs);
            &&& info.vector == vmcs.vm_exit_intr_info & 0xff
            &&& info.interruption_type == (vmcs.vm_exit_intr_info >> 8) & 0x7
            &&& info.valid == (vmcs.vm_exit_intr_info & 0x8000_0000 != 0)
        }),
        ({
            let info = IoInfo::decoded(qualification);
            &&& info.access_size == (qualification & 0x7) + 1
            &&& info.input == (qualification & 0x8 != 0)
            &&& info.string == (qualification & 0x10 != 0)
            &&& info.repeat == (qualification & 0x20 != 0)
            &&& info.port == (qualification >> 16) & 0xffff
        }),
{
    lemma_fields(vmcs.vm_exit_intr_info, qualification);
}

/// Which exits can be handled: those with a reason that exists, and among them not an interrupt
/// below the vectors of the interrupt controller, nor an instruction that ends past the address
/// space, nor a leaf of `CPUID` in the supported range without an answer, nor a write to a trapped
/// port that is wider than four bytes.
pub proof fn law_handled_exits(vmcs: AutoVmcs, guest: GuestState, hit: bool)
    ensures
        is_handled_if(vmcs, guest, hit) <==> {
            let reason = vmcs.vm_exit_reason & 0xffff;
            let leaf = guest.rax as u32;
            let port = (vmcs.exit_qualification >> 16) & 0xffff;
            let fits = vmcs.guest_rip + vmcs.vm_exit_instruction_len <= usize::MAX;
            &&& reason <= 64 && reason != 35 && reason != 38 && reason != 42
            &&& reason == 1 ==> vmcs.vm_exit_intr_info & 0x8000_0000 != 0 && (
            vmcs.vm_exit_intr_info >> 8) & 0x7 == 0 && vmcs.vm_exit_intr_info & 0xff >= 32
            &&& reason == 10 || reason == 18 || reason == 30 ==> fits
            &&& reason == 10 && leaf == 1 ==> 1 <= vmcs.virtual_processor_id <= 256
            &&& reason == 10 && leaf == 0xb ==> 1 <= vmcs.virtual_processor_id
            &&& reason == 10 && (0 < leaf <= 0x17 || 0x8000_0000 < leaf <= 0x8000_001e) ==> {
                ||| leaf == 1
                ||| 5 <= leaf <= 7
                ||| leaf == 0xa
                ||| leaf == 0xb
                ||| leaf == 0xd
            }
            &&& reason == 30 && hit ==> port == 0x402 || port == 0x40 || vmcs.exit_qualification
                & 0x8 != 0 || vmcs.exit_qualification & 0x7 <= 3
            &&& reason == 48 && hit && vmcs.vm_exit_instruction_len <= 15 ==> fits
        },
{
    law_access_is_decoded(vmcs, vmcs.exit_qualification);
}

/// An exit is handled according to whether the traps can be hit at the port, or at the guest
/// physical address, that the processor reports.
pub proof fn law_searched_address(vmcs: AutoVmcs, guest: GuestState, traps: &Mutex<TrapMap>)
    ensures
        vmcs.vm_exit_reason & 0xffff == 30 ==> is_handled_exit(vmcs, guest, traps)
            == is_handled_if(
            vmcs,
            guest,
            may_hit(
                traps,
                TrapKind::GuestTrapIo,
                ((vmcs.exit_qualification >> 16) & 0xffff) as usize,
            ),
        ),
        vmcs.vm_exit_reason & 0xffff == 48 ==> is_handled_exit(vmcs, guest, traps)
            == is_handled_if(
            vmcs,
            guest,
            may_hit(traps, TrapKind::GuestTrapMem, vmcs.guest_physical_address as usize),
        ),
{
    law_access_is_decoded(vmcs, vmcs.exit_qualification);
}

/// A trap can be hit exactly if a search can find one.
pub proof fn law_hits_are_found(traps: &Mutex<TrapMap>, kind: TrapKind, addr: usize, trap: Trap)
    ensures
        may_find(traps, kind, addr, Some(trap)) ==> may_hit(traps, kind, addr),
        may_hit(traps, kind, addr) ==> exists|t: Trap| may_find(traps, kind, addr, Some(t)),
{
}

/// An interrupt of the host leaves the guest where and as it is. The timer, on vector 32, drives the
/// guest's timer; the serial port, on vector 36, is passed on; no other interrupt asks anything.
pub proof fn law_external_interrupt(
    exit_info: ExitInfo,
    gpm: &Arc<dyn GuestPhysMemorySetTrait>,
    traps: &Mutex<TrapMap>,
    timer: PitTimer,
    vmcs: AutoVmcs,
    vmcs_after: AutoVmcs,
    guest: GuestState,
    guest_after: GuestState,
    requests: Seq<DeviceRequest>,
    requests_after: Seq<DeviceRequest>,
    r: ExitResult,
)
    requires
        exit_is_handled(
            exit_info,
            gpm,
            traps,
            timer,
            vmcs,
            vmcs_after,
            guest,
            guest_after,
            requests,
            requests_after,
            r,
        ),
        exit_info.exit_reason is EXTERNAL_INTERRUPT,
    ensures
        r == ExitResult::Ok(None),
        vmcs_after == vmcs,
        guest_after == guest,
        vmcs.vm_exit_intr_info & 0xff == 32 ==> requests_after == requests.push(
            DeviceRequest::TimerIrq,
        ),
        vmcs.vm_exit_intr_info & 0xff == 36 ==> requests_after == requests.push(
            DeviceRequest::VirtualInterrupt { vector: 36 },
        ),
        vmcs.vm_exit_intr_info & 0xff != 32 && vmcs.vm_exit_intr_info & 0xff != 36
            ==> requests_after == requests,
{
    law_access_is_decoded(vmcs, 0);
    assert(requests + Seq::<DeviceRequest>::empty() =~= requests);
}

/// An interrupt window clears bit 2 of the primary controls, and nothing else changes.
pub proof fn law_interrupt_window(
    exit_info: ExitInfo,
    gpm: &Arc<dyn GuestPhysMemorySetTrait>,
    traps: &Mutex<TrapMap>,
    timer: PitTimer,
    vmcs: AutoVmcs,
    vmcs_after: AutoVmcs,
    guest: GuestState,
    guest_after: GuestState,
    requests: Seq<DeviceRequest>,
    requests_after: Seq<DeviceRequest>,
    r: ExitResult,
)
    requires
        exit_is_handled(
            exit_info,
            gpm,
            traps,
            timer,
            vmcs,
            vmcs_after,
            guest,
            guest_after,
            requests,
            requests_after,
            r,
        ),
        exit_info.exit_reason is INTERRUPT_WINDOW,
    ensures
        r == ExitResult::Ok(None),
        guest_after == guest,
        requests_after == requests,
        vmcs_after.cpu_based_vm_exec_control & 0x4 == 0,
        vmcs_after.cpu_based_vm_exec_control & !0x4u32 == vmcs.cpu_based_vm_exec_control & !0x4u32,
        vmcs_after == (AutoVmcs {
            cpu_based_vm_exec_control: vmcs_after.cpu_based_vm_exec_control,
            ..vmcs
        }),
{
    let controls: u32 = vmcs.cpu_based_vm_exec_control;
    assert((controls & !0x4u32) & 0x4 == 0 && (controls & !0x4u32) & !0x4u32 == controls & !0x4u32)
        by (bit_vector);
}

/// The guest goes on behind an instruction that was emulated: its instruction pointer is the one of
/// the exit plus the length of the instruction, and no other field of the VMCS changes. An exit that
/// is no emulated instruction, no interrupt window and no memory access changes no field at all.
pub proof fn law_emulated_instruction_is_skipped(
    exit_info: ExitInfo,
    gpm: &Arc<dyn GuestPhysMemorySetTrait>,
    traps: &Mutex<TrapMap>,
    timer: PitTimer,
    vmcs: AutoVmcs,
    vmcs_after: AutoVmcs,
    guest: GuestState,
    guest_after: GuestState,
    requests: Seq<DeviceRequest>,
    requests_after: Seq<DeviceRequest>,
    r: ExitResult,
)
    requires
        exit_is_handled(
            exit_info,
            gpm,
            traps,
            timer,
            vmcs,
            vmcs_after,
            guest,
            guest_after,
            requests,
            requests_after,
            r,
        ),
    ensures
        (exit_info.exit_reason is CPUID || exit_info.exit_reason is VMCALL
            || exit_info.exit_reason is IO_INSTRUCTION) && exit_info.guest_rip
            + exit_info.exit_instruction_length <= usize::MAX ==> {
            &&& vmcs_after.guest_rip == exit_info.guest_rip + exit_info.exit_instruction_length
            &&& vmcs_after == (AutoVmcs { guest_rip: vmcs_after.guest_rip, ..vmcs })
        },
        !(exit_info.exit_reason is CPUID || exit_info.exit_reason is VMCALL
            || exit_info.exit_reason is IO_INSTRUCTION || exit_info.exit_reason is INTERRUPT_WINDOW
            || exit_info.exit_reason is EPT_VIOLATION) ==> vmcs_after == vmcs,
{
}

/// The guest goes on behind an instruction that was emulated, in the terms of the VMCS: `GUEST_RIP`
/// has grown by `VM_EXIT_INSTRUCTION_LEN`, as whole numbers.
pub proof fn law_handler_moves_guest(
    gpm: &Arc<dyn GuestPhysMemorySetTrait>,
    traps: &Mutex<TrapMap>,
    timer: PitTimer,
    vmcs: AutoVmcs,
    vmcs_after: AutoVmcs,
    guest: GuestState,
    guest_after: GuestState,
    requests: Seq<DeviceRequest>,
    requests_after: Seq<DeviceRequest>,
    r: ExitResult,
)
    requires
        exit_is_handled(
            ExitInfo::decoded(vmcs),
            gpm,
            traps,
            timer,
            vmcs,
            vmcs_after,
            guest,
            guest_after,
            requests,
            requests_after,
            r,
        ),
        vmcs.guest_rip + vmcs.vm_exit_instruction_len <= usize::MAX,
    ensures
        vmcs.vm_exit_reason & 0xffff == 10 || vmcs.vm_exit_reason & 0xffff == 18
            || vmcs.vm_exit_reason & 0xffff == 30 ==> vmcs_after.guest_rip == vmcs.guest_rip
            + vmcs.vm_exit_instruction_len,
        vmcs.vm_exit_reason & 0xffff == 48 && r is Ok && r->Ok_0 is Some ==> vmcs_after.guest_rip
            == vmcs.guest_rip + vmcs.vm_exit_instruction_len,
        vmcs.vm_exit_reason & 0xffff == 48 && r == ExitResult::Ok(None) ==> vmcs_after.guest_rip
            == vmcs.guest_rip,
        vmcs.vm_exit_reason & 0xffff == 1 || vmcs.vm_exit_reason & 0xffff == 7
            ==> vmcs_after.guest_rip == vmcs.guest_rip,
{
    law_exit_is_decoded(vmcs, ExitReason::CPUID);
    law_exit_is_decoded(vmcs, ExitReason::VMCALL);
    law_exit_is_decoded(vmcs, ExitReason::IO_INSTRUCTION);
    law_exit_is_decoded(vmcs, ExitReason::EPT_VIOLATION);
    law_exit_is_decoded(vmcs, ExitReason::EXTERNAL_INTERRUPT);
    law_exit_is_decoded(vmcs, ExitReason::INTERRUPT_WINDOW);
}

/// A hypercall leaves zero in `rax`, and every other register as it was.
pub proof fn law_hypercall(
    exit_info: ExitInfo,
    gpm: &Arc<dyn GuestPhysMemorySetTrait>,
    traps: &Mutex<TrapMap>,
    timer: PitTimer,
    vmcs: AutoVmcs,
    vmcs_after: AutoVmcs,
    guest: GuestState,
    guest_after: GuestState,
    requests: Seq<DeviceRequest>,
    requests_after: Seq<DeviceRequest>,
    r: ExitResult,
)
    requires
        exit_is_handled(
            exit_info,
            gpm,
            traps,
            timer,
            vmcs,
            vmcs_after,
            guest,
            guest_after,
            requests,
            requests_after,
            r,
        ),
        exit_info.exit_reason is VMCALL,
    ensures
        r == ExitResult::Ok(None),
        requests_after == requests,
        guest_after == (GuestState { rax: 0, ..guest }),
{
}

/// A reason without a handler is refused, and nothing changes.
pub proof fn law_reasons_without_a_handler(
    exit_info: ExitInfo,
    gpm: &Arc<dyn GuestPhysMemorySetTrait>,
    traps: &Mutex<TrapMap>,
    timer: PitTimer,
    vmcs: AutoVmcs,
    vmcs_after: AutoVmcs,
    guest: GuestState,
    guest_after: GuestState,
    requests: Seq<DeviceRequest>,
    requests_after: Seq<DeviceRequest>,
    r: ExitResult,
)
    requires
        exit_is_handled(
            exit_info,
            gpm,
            traps,
            timer,
            vmcs,
            vmcs_after,
            guest,
            guest_after,
            requests,
            requests_after,
            r,
        ),
        !(exit_info.exit_reason is EXTERNAL_INTERRUPT || exit_info.exit_reason is INTERRUPT_WINDOW
            || exit_info.exit_reason is CPUID || exit_info.exit_reason is VMCALL
            || exit_info.exit_reason is IO_INSTRUCTION || exit_info.exit_reason is EPT_VIOLATION),
    ensures
        r == ExitResult::Err(RvmError::NotSupported),
        vmcs_after == vmcs,
        guest_after == guest,
        requests_after == requests,
{
}

/// `CPUID` asks nothing of the devices, never fails, and answers on the registers of the guest.
pub proof fn law_cpuid_exit(
    exit_info: ExitInfo,
    gpm: &Arc<dyn GuestPhysMemorySetTrait>,
    traps: &Mutex<TrapMap>,
    timer: PitTimer,
    vmcs: AutoVmcs,
    vmcs_after: AutoVmcs,
    guest: GuestState,
    guest_after: GuestState,
    requests: Seq<DeviceRequest>,
    requests_after: Seq<DeviceRequest>,
    r: ExitResult,
)
    requires
        exit_is_handled(
            exit_info,
            gpm,
            traps,
            timer,
            vmcs,
            vmcs_after,
            guest,
            guest_after,
            requests,
            requests_after,
            r,
        ),
        exit_info.exit_reason is CPUID,
    ensures
        r == ExitResult::Ok(None),
        requests_after == requests,
        is_answer(vmcs, guest, guest_after),
{
}

/// Accesses to the debug port and to the data port of the timer are answered here. A write hands the
/// low byte of `rax` to the device; a read of the timer gives its byte, extended by zeros, in `rax`; a
/// read of the debug port gives nothing.
pub proof fn law_internal_ports(
    exit_info: ExitInfo,
    gpm: &Arc<dyn GuestPhysMemorySetTrait>,
    traps: &Mutex<TrapMap>,
    timer: PitTimer,
    vmcs: AutoVmcs,
    vmcs_after: AutoVmcs,
    guest: GuestState,
    guest_after: GuestState,
    requests: Seq<DeviceRequest>,
    requests_after: Seq<DeviceRequest>,
    r: ExitResult,
)
    requires
        exit_is_handled(
            exit_info,
            gpm,
            traps,
            timer,
            vmcs,
            vmcs_after,
            guest,
            guest_after,
            requests,
            requests_after,
            r,
        ),
        exit_info.exit_reason is IO_INSTRUCTION,
        (exit_info.exit_qualification >> 16) & 0xffff == 0x402 || (exit_info.exit_qualification
            >> 16) & 0xffff == 0x40,
    ensures
        r == ExitResult::Ok(None),
        ({
            let timer_port = (exit_info.exit_qualification >> 16) & 0xffff == 0x40;
            let input = exit_info.exit_qualification & 0x8 != 0;
            &&& timer_port && input ==> guest_after == (GuestState {
                rax: timer.data as u64,
                ..guest
            })
            &&& !(timer_port && input) ==> guest_after == guest
            &&& input ==> requests_after == requests
            &&& timer_port && !input ==> requests_after == requests.push(
                DeviceRequest::TimerWrite { value: guest.rax as u8 },
            )
            &&& !timer_port && !input ==> requests_after == requests.push(
                DeviceRequest::DebugOutput { value: guest.rax as u8 },
            )
        }),
{
    law_access_is_decoded(vmcs, exit_info.exit_qualification);
    assert(requests + Seq::<DeviceRequest>::empty() =~= requests);
}

/// Any other access is forwarded exactly if a search of the traps for its port finds one. The packet
/// carries the key of that trap, the port, the width, the direction and the flags of the exit
/// qualification, and the bytes of `rax` that the guest writes. `rax` is cleared for a read of four
/// bytes, and the guest's registers stay otherwise.
pub proof fn law_trapped_ports(
    exit_info: ExitInfo,
    gpm: &Arc<dyn GuestPhysMemorySetTrait>,
    traps: &Mutex<TrapMap>,
    timer: PitTimer,
    vmcs: AutoVmcs,
    vmcs_after: AutoVmcs,
    guest: GuestState,
    guest_after: GuestState,
    requests: Seq<DeviceRequest>,
    requests_after: Seq<DeviceRequest>,
    r: ExitResult,
)
    requires
        exit_is_handled(
            exit_info,
            gpm,
            traps,
            timer,
            vmcs,
            vmcs_after,
            guest,
            guest_after,
            requests,
            requests_after,
            r,
        ),
        exit_info.exit_reason is IO_INSTRUCTION,
        (exit_info.exit_qualification >> 16) & 0xffff != 0x402,
        (exit_info.exit_qualification >> 16) & 0xffff != 0x40,
    ensures
        requests_after == requests,
        exists|found: Option<Trap>|
            {
                let q = exit_info.exit_qualification;
                let port = (q >> 16) & 0xffff;
                let input = q & 0x8 != 0;
                let size = if input { 0 } else { (q & 0x7) + 1 };
                let rax = guest.rax as int;
                &&& #[trigger] may_find(
                    traps,
                    TrapKind::GuestTrapIo,
                    (exit_info.exit_qualification >> 16) & 0xffff,
                    found,
                )
                &&& found is None ==> r == ExitResult::Ok(None) && guest_after == guest
                &&& found is Some && input && q & 0x7 == 3 ==> guest_after == (GuestState {
                    rax: 0,
                    ..guest
                })
                &&& found is Some && !(input && q & 0x7 == 3) ==> guest_after == guest
                &&& found matches Some(trap) ==> {
                    &&& r matches Ok(Some(packet))
                    &&& packet.key == trap.key
                    &&& packet.inner matches RvmExitPacketInner::Io(io)
                    &&& io.port == port
                    &&& io.access_size == (q & 0x7) + 1
                    &&& io.input == input
                    &&& io.string == (q & 0x10 != 0)
                    &&& io.repeat == (q & 0x20 != 0)
                    &&& io.data@.len() == 4
                    &&& io.data@[0] == if size > 0 { rax % 0x100 } else { 0 }
                    &&& io.data@[1] == if size > 1 { (rax / 0x100) % 0x100 } else { 0 }
                    &&& io.data@[2] == if size > 2 { (rax / 0x1_0000) % 0x100 } else { 0 }
                    &&& io.data@[3] == if size > 3 { (rax / 0x100_0000) % 0x100 } else { 0 }
                }
            },
{
    let q = exit_info.exit_qualification;
    law_access_is_decoded(vmcs, q);
    lemma_fields(0, q);
    lemma_bytes(guest.rax);
    let port = IoInfo::decoded(q).port as usize;
    assert(port == (q >> 16) & 0xffff);
}

proof fn lemma_instruction(buffer: Seq<u8>, code: Seq<u8>)
    requires
        code.len() <= buffer.len(),
        buffer.take(code.len() as int) == code,
    ensures
        forall|i: int| 0 <= i < code.len() ==> buffer[i] == code[i],
{
    assert forall|i: int| 0 <= i < code.len() implies buffer[i] == code[i] by {
        assert(buffer.take(code.len() as int)[i] == buffer[i]);
    }
}

/// An access to memory by an instruction of up to fifteen bytes is forwarded exactly if a search of
/// the traps for its address finds a region that userspace emulates, and its instruction can be
/// read at the instruction pointer of the exit. The packet carries the key of that trap, the
/// address, the instruction, and an operand size that is four in 64-bit code and in code whose D/B
/// flag is set, and two otherwise. A longer instruction fails, and nothing changes.
pub proof fn law_memory_access(
    exit_info: ExitInfo,
    guest_paddr: usize,
    gpm: &Arc<dyn GuestPhysMemorySetTrait>,
    traps: &Mutex<TrapMap>,
    before: AutoVmcs,
    after: AutoVmcs,
    r: ExitResult,
)
    requires
        mmio_is_handled(exit_info, guest_paddr, gpm, traps, before, after, r),
    ensures
        exit_info.exit_instruction_length > 15 ==> r == ExitResult::Err(RvmError::Internal) && after
            == before,
        exit_info.exit_instruction_length <= 15 ==> exists|found: Option<Trap>|
            {
                let len = exit_info.exit_instruction_length;
                &&& #[trigger] may_find(traps, TrapKind::GuestTrapMem, guest_paddr, found)
                &&& found is None ==> r == ExitResult::Ok(None) && after == before
                &&& found is Some && exit_info.guest_rip + len <= usize::MAX ==> {
                    &&& after.guest_rip == exit_info.guest_rip + len
                    &&& after == (AutoVmcs { guest_rip: after.guest_rip, ..before })
                }
                &&& found matches Some(trap) ==> match trap.kind {
                    TrapKind::GuestTrapBell => r == ExitResult::Err(RvmError::NotSupported),
                    TrapKind::GuestTrapIo => r == ExitResult::Err(RvmError::BadState),
                    TrapKind::GuestTrapMem => exists|
                        blank: Seq<u8>,
                        code: Seq<u8>,
                        read: RvmResult<usize>,
                    |
                        {
                            &&& blank.len() == len && code.len() == len
                            &&& forall|i: int| 0 <= i < len ==> blank[i] == 0
                            &&& #[trigger] (**gpm).may_read(exit_info.guest_rip, blank, code, read)
                            &&& read matches Err(e) ==> r == ExitResult::Err(e)
                            &&& read is Ok ==> {
                                &&& r matches Ok(Some(packet))
                                &&& packet.key == trap.key
                                &&& packet.inner matches RvmExitPacketInner::Mmio(mmio)
                                &&& mmio.addr == guest_paddr
                                &&& mmio.inst_len == len
                                &&& mmio.default_operand_size == 4 || mmio.default_operand_size == 2
                                &&& mmio.default_operand_size == 4 <==> (before.guest_cs_ar_bytes
                                    & 0x4000 != 0 || (before.guest_ia32_efer & 0x400 != 0
                                    && before.guest_cs_ar_bytes & 0x2000 != 0))
                                &&& mmio.inst_buf@.len() == 15
                                &&& forall|i: int| 0 <= i < len ==> mmio.inst_buf@[i] == code[i]
                                &&& forall|i: int| len <= i < 15 ==> mmio.inst_buf@[i] == 0
                            }
                        },
                }
            },
{
    if exit_info.exit_instruction_length <= 15 {
        if r is Ok && r->Ok_0 is Some && r->Ok_0->Some_0.inner is Mmio {
            let mmio = r->Ok_0->Some_0.inner->Mmio_0;
            if mmio.inst_len <= 15 {
                lemma_instruction(mmio.inst_buf@, mmio.instruction());
            }
        }
    }
}

/// A violation of the extended page tables is an access to memory at the guest physical address that
/// the processor reports. Where no trap is found there, it is a page fault at that address: its
/// outcome is that of the memory set, and nothing changes, so that the guest repeats the access.
pub proof fn law_ept_violation(
    exit_info: ExitInfo,
    gpm: &Arc<dyn GuestPhysMemorySetTrait>,
    traps: &Mutex<TrapMap>,
    timer: PitTimer,
    vmcs: AutoVmcs,
    vmcs_after: AutoVmcs,
    guest: GuestState,
    guest_after: GuestState,
    requests: Seq<DeviceRequest>,
    requests_after: Seq<DeviceRequest>,
    r: ExitResult,
)
    requires
        exit_is_handled(
            exit_info,
            gpm,
            traps,
            timer,
            vmcs,
            vmcs_after,
            guest,
            guest_after,
            requests,
            requests_after,
            r,
        ),
        exit_info.exit_reason is EPT_VIOLATION,
    ensures
        guest_after == guest,
        requests_after == requests,
        exit_info.exit_instruction_length > 15 ==> r == ExitResult::Err(RvmError::Internal)
            && vmcs_after == vmcs,
        exit_info.exit_instruction_length <= 15 ==> exists|found: Option<Trap>|
            {
                let len = exit_info.exit_instruction_length;
                &&& #[trigger] may_find(traps, TrapKind::GuestTrapMem, (vmcs.guest_physical_address as usize), found)
                &&& found is None ==> vmcs_after == vmcs && exists|outcome: RvmResult<()>|
                    {
                        &&& #[trigger] (**gpm).may_answer_fault(
                            vmcs.guest_physical_address as usize,
                            outcome,
                        )
                        &&& outcome is Ok ==> r == ExitResult::Ok(None)
                        &&& outcome matches Err(e) ==> r == ExitResult::Err(e)
                    }
                &&& found is Some && exit_info.guest_rip + len <= usize::MAX ==> {
                    &&& vmcs_after.guest_rip == exit_info.guest_rip + len
                    &&& vmcs_after == (AutoVmcs { guest_rip: vmcs_after.guest_rip, ..vmcs })
                }
                &&& found matches Some(trap) ==> match trap.kind {
                    TrapKind::GuestTrapBell => r == ExitResult::Err(RvmError::NotSupported),
                    TrapKind::GuestTrapIo => r == ExitResult::Err(RvmError::BadState),
                    TrapKind::GuestTrapMem => exists|
                        blank: Seq<u8>,
                        code: Seq<u8>,
                        read: RvmResult<usize>,
                    |
                        {
                            &&& blank.len() == len && code.len() == len
                            &&& forall|i: int| 0 <= i < len ==> blank[i] == 0
                            &&& #[trigger] (**gpm).may_read(exit_info.guest_rip, blank, code, read)
                            &&& read matches Err(e) ==> r == ExitResult::Err(e)
                            &&& read is Ok ==> {
                                &&& r matches Ok(Some(packet))
                                &&& packet.key == trap.key
                                &&& packet.inner matches RvmExitPacketInner::Mmio(mmio)
                                &&& mmio.addr == (vmcs.guest_physical_address as usize)
                                &&& mmio.inst_len == len
                                &&& mmio.default_operand_size == 4 || mmio.default_operand_size == 2
                                &&& mmio.default_operand_size == 4 <==> (vmcs.guest_cs_ar_bytes
                                    & 0x4000 != 0 || (vmcs.guest_ia32_efer & 0x400 != 0
                                    && vmcs.guest_cs_ar_bytes & 0x2000 != 0))
                                &&& mmio.inst_buf@.len() == 15
                                &&& forall|i: int| 0 <= i < len ==> mmio.inst_buf@[i] == code[i]
                                &&& forall|i: int| len <= i < 15 ==> mmio.inst_buf@[i] == 0
                            }
                        },
                }
            },
{
    let guest_paddr = vmcs.guest_physical_address as usize;
    if mmio_is_handled(exit_info, guest_paddr, gpm, traps, vmcs, vmcs_after, r) {
        law_memory_access(exit_info, guest_paddr, gpm, traps, vmcs, vmcs_after, r);
    }
    if mmio_is_handled(
        exit_info,
        guest_paddr,
        gpm,
        traps,
        vmcs,
        vmcs_after,
        ExitResult::Ok(None),
    ) {
        law_memory_access(
            exit_info,
            guest_paddr,
            gpm,
            traps,
            vmcs,
            vmcs_after,
            ExitResult::Ok(None),
        );
    }
}

/// The instruction of an exit is read exactly if its handling failed: as many bytes as the exit
/// reports, from the code segment, at the instruction pointer of the exit. The report holds the
/// bytes, or why they cannot be read.
pub proof fn law_failed_exit_is_read(
    vmcs: AutoVmcs,
    gpm: &Arc<dyn GuestPhysMemorySetTrait>,
    r: ExitResult,
    report: Option<ExitReport>,
)
    requires
        is_report(ExitInfo::decoded(vmcs), vmcs.guest_cs_base, gpm, r, report),
    ensures
        r is Ok ==> report is None,
        vmcs.guest_cs_base + vmcs.guest_rip > usize::MAX ==> report is None,
        r is Err && vmcs.guest_cs_base + vmcs.guest_rip <= usize::MAX ==> exists|
            blank: Seq<u8>,
            code: Seq<u8>,
            read: RvmResult<usize>,
        |
            {
                &&& blank.len() == vmcs.vm_exit_instruction_len
                &&& forall|i: int| 0 <= i < blank.len() ==> blank[i] == 0
                &&& #[trigger] (**gpm).may_read(
                    (vmcs.guest_cs_base + vmcs.guest_rip) as usize,
                    blank,
                    code,
                    read,
                )
                &&& read matches Err(e) ==> report == Some(ExitReport::Err(e))
                &&& read is Ok ==> (report matches Some(Ok(bytes)) && bytes@ == code)
            },
{
}

proof fn lemma_shown_and_hidden(rbx: u64, rcx: u64, rdx: u64, apic_id: u64)
    by (bit_vector)
    requires
        apic_id <= 0xff,
    ensures
        (((rbx & !0xff00_0000) | (apic_id << 24)) >> 24) & 0xff == apic_id,
        ((rbx & !0xff00_0000) | (apic_id << 24)) & !0xff00_0000 == rbx & !0xff00_0000,
        ((rcx | 0x8020_0000) & !0x8128) & 0x8020_0000 == 0x8020_0000,
        ((rcx | 0x8020_0000) & !0x8128) & 0x8128 == 0,
        ((rcx | 0x8020_0000) & !0x8128) & !0x8020_8128 == rcx & !0x8020_8128,
        ((rdx | 0x800) & !0x2040_0000) & 0x800 == 0x800,
        ((rdx | 0x800) & !0x2040_0000) & 0x2040_0000 == 0,
        ((rdx | 0x800) & !0x2040_0000) & !0x2040_0800 == rdx & !0x2040_0800,
{
}

proof fn lemma_hidden(value: u64, hidden: u64)
    by (bit_vector)
    ensures
        (value & !hidden) & hidden == 0,
        (value & !hidden) & !hidden == value & !hidden,
{
}

proof fn lemma_invpcid(value: u64)
    by (bit_vector)
    ensures
        !(0x200_0000u64 | 0x400) == !0x200_0400u64,
        (value & !0x200_0000) & 0x200_0000 == 0,
        (value & !0x200_0000) & !0x200_0000 == value & !0x200_0000,
        (value & !0x200_0400) & 0x200_0400 == 0,
        (value & !0x200_0400) & !0x200_0400 == value & !0x200_0400,
{
}

/// What a guest sees of a leaf, where `host` holds what the host reports. Some bits are always
/// shown, some are always hidden, and every other bit is the host's:
///
/// - Leaf 1, EBX: bits 24 to 31 are the number of the virtual processor, from zero. ECX: the
///   hypervisor bit 31 and the x2APIC bit 21 are shown; MONITOR, VMX, TM2 and PDCM, bits 3, 5, 8 and
///   15, are hidden. EDX: SYSENTER, bit 11, is shown; bits 22 and 29, ACPI and TM, are hidden.
/// - Leaf 6, EAX: bits 0 and 6 to 10 are hidden. ECX: bits 0 and 3 are hidden.
/// - Leaf 7, EBX: bit 25, the processor trace, is hidden, and `INVPCID`, bit 10, where bit 12 of the
///   secondary controls is off. EDX: bits 26, 27, 29 and 31 are hidden.
/// - Leaf 11, EDX is the number of the virtual processor.
/// - Leaf 13, EBX of subleaf 0 is the size of the guest's XSAVE area; bit 3 of EAX of subleaf 1 is
///   hidden.
/// - Leaves 5 and 10 report nothing of the host.
pub proof fn law_restrictions(
    leaf: u32,
    subleaf: u32,
    xsave_size: u32,
    vmcs: AutoVmcs,
    host: GuestState,
)
    requires
        leaf == 1 ==> 1 <= vmcs.virtual_processor_id <= 256,
        leaf == 0xb ==> 1 <= vmcs.virtual_processor_id,
    ensures
        ({
            let seen = restricted(leaf, subleaf, xsave_size, vmcs, host);
            &&& leaf == 1 ==> {
                &&& seen == (GuestState { rbx: seen.rbx, rcx: seen.rcx, rdx: seen.rdx, ..host })
                &&& (seen.rbx >> 24) & 0xff == vmcs.virtual_processor_id - 1
                &&& seen.rbx & !0xff00_0000u64 == host.rbx & !0xff00_0000u64
                &&& seen.rcx & 0x8020_0000 == 0x8020_0000
                &&& seen.rcx & 0x8128 == 0
                &&& seen.rcx & !0x8020_8128u64 == host.rcx & !0x8020_8128u64
                &&& seen.rdx & 0x800 == 0x800
                &&& seen.rdx & 0x2040_0000 == 0
                &&& seen.rdx & !0x2040_0800u64 == host.rdx & !0x2040_0800u64
            }
            &&& leaf == 6 ==> {
                &&& seen == (GuestState { rax: seen.rax, rcx: seen.rcx, ..host })
                &&& seen.rax & 0x7c1 == 0
                &&& seen.rax & !0x7c1u64 == host.rax & !0x7c1u64
                &&& seen.rcx & 0x9 == 0
                &&& seen.rcx & !0x9u64 == host.rcx & !0x9u64
            }
            &&& leaf == 7 ==> {
                &&& seen == (GuestState { rbx: seen.rbx, rdx: seen.rdx, ..host })
                &&& vmcs.secondary_vm_exec_control & 0x1000 == 0 ==> seen.rbx & 0x200_0400 == 0
                    && seen.rbx & !0x200_0400u64 == host.rbx & !0x200_0400u64
                &&& vmcs.secondary_vm_exec_control & 0x1000 != 0 ==> seen.rbx & 0x200_0000 == 0
                    && seen.rbx & !0x200_0000u64 == host.rbx & !0x200_0000u64
                &&& seen.rdx & 0xac00_0000 == 0
                &&& seen.rdx & !0xac00_0000u64 == host.rdx & !0xac00_0000u64
            }
            &&& leaf == 0xb ==> {
                &&& seen.rdx == vmcs.virtual_processor_id - 1
                &&& seen == (GuestState { rdx: seen.rdx, ..host })
            }
            &&& leaf == 0xd && subleaf == 0 ==> seen == (GuestState {
                rbx: xsave_size as u64,
                ..host
            })
            &&& leaf == 0xd && subleaf == 1 ==> {
                &&& seen == (GuestState { rax: seen.rax, ..host })
                &&& seen.rax & 0x8 == 0
                &&& seen.rax & !0x8u64 == host.rax & !0x8u64
            }
            &&& leaf == 0xd && subleaf > 1 ==> seen == host
            &&& leaf == 5 ==> seen == (GuestState { rax: 0, rbx: 0, rcx: 0, rdx: 0, ..host })
            &&& leaf == 0xa ==> seen == (GuestState { rax: 0, rbx: 0x7f, rcx: 0, rdx: 0, ..host })
        }),
{
    if leaf == 1 {
        lemma_shown_and_hidden(
            host.rbx,
            host.rcx,
            host.rdx,
            (vmcs.virtual_processor_id - 1) as u64,
        );
    }
    lemma_hidden(host.rax, 0x7c1);
    lemma_hidden(host.rcx, 0x9);
    lemma_hidden(host.rax, 0x8);
    lemma_hidden(host.rdx, 0xac00_0000);
    lemma_invpcid(host.rbx);
}

proof fn lemma_answer_has_source(vmcs: AutoVmcs, before: GuestState, after: GuestState) -> (source: (
    CpuIdResult,
    u32,
))
    requires
        is_answer(vmcs, before, after),
    ensures
        host_query(before.rax as u32, before.rcx as u32) matches Some(query) ==> host_reports(
            query.0,
            query.1,
            source.0,
        ),
        before.rax as u32 == 0xd && before.rcx as u32 == 0 ==> is_host_xsave_size(
            before.xcr0,
            source.1,
        ),
        after == answer(
            before.rax as u32,
            before.rcx as u32,
            source.0,
            source.1,
            vmcs,
            before,
        ),
{
    choose|host: CpuIdResult, xsave_size: u32|
        {
            &&& host_query(before.rax as u32, before.rcx as u32) matches Some(query)
                ==> host_reports(query.0, query.1, host)
            &&& before.rax as u32 == 0xd && before.rcx as u32 == 0 ==> is_host_xsave_size(
                before.xcr0,
                xsave_size,
            )
            &&& after == #[trigger] answer(
                before.rax as u32,
                before.rcx as u32,
                host,
                xsave_size,
                vmcs,
                before,
            )
        }
}

/// On the leaves that a guest sees in part, it sees the host's answer on its own leaf and its own
/// subleaf, restricted as `law_restrictions` says. The high halves of the four registers are clear,
/// and no other register changes.
pub proof fn law_restricted_leaves_come_from_the_host(
    vmcs: AutoVmcs,
    before: GuestState,
    after: GuestState,
)
    requires
        is_answer(vmcs, before, after),
        before.rax as u32 == 1 || 5 <= before.rax as u32 <= 7 || before.rax as u32 == 0xa
            || before.rax as u32 == 0xb || before.rax as u32 == 0xd,
    ensures
        exists|host: CpuIdResult, xsave_size: u32|
            {
                &&& #[trigger] host_reports(before.rax as u32, before.rcx as u32, host)
                &&& before.rax as u32 == 0xd && before.rcx as u32 == 0 ==> is_host_xsave_size(
                    before.xcr0,
                    xsave_size,
                )
                &&& after == #[trigger] restricted(
                    before.rax as u32,
                    before.rcx as u32,
                    xsave_size,
                    vmcs,
                    GuestState {
                        rax: host.eax as u64,
                        rbx: host.ebx as u64,
                        rcx: host.ecx as u64,
                        rdx: host.edx as u64,
                        ..before
                    },
                )
            },
{
    let (host, xsave_size) = lemma_answer_has_source(vmcs, before, after);
}

/// On the leaf of the XSAVE components, a guest sees the host's answer on its own subleaf, whole
/// from subleaf 2 on; on subleaf 0 the size in EBX is that of its own area, and on subleaf 1 bit 3
/// of EAX is hidden.
pub proof fn law_xsave_leaf_comes_from_the_host(
    vmcs: AutoVmcs,
    before: GuestState,
    after: GuestState,
)
    requires
        is_answer(vmcs, before, after),
        before.rax as u32 == 0xd,
    ensures
        exists|host: CpuIdResult|
            {
                &&& #[trigger] host_reports(0xd, before.rcx as u32, host)
                &&& before.rcx as u32 > 1 ==> after.rax == host.eax
                &&& before.rcx as u32 == 0 ==> after.rax == host.eax && exists|size: u32|
                    is_host_xsave_size(before.xcr0, size) && after.rbx == size
                &&& before.rcx as u32 == 1 ==> after.rax & 0x8 == 0 && after.rax & !0x8u64
                    == host.eax as u64 & !0x8u64
                &&& before.rcx as u32 != 0 ==> after.rbx == host.ebx
                &&& after.rcx == host.ecx
                &&& after.rdx == host.edx
            },
        after == (GuestState {
            rax: after.rax,
            rbx: after.rbx,
            rcx: after.rcx,
            rdx: after.rdx,
            ..before
        }),
{
    let (host, xsave_size) = lemma_answer_has_source(vmcs, before, after);
    law_restrictions(0xd, before.rcx as u32, xsave_size, vmcs, host.loaded(before));
}

/// On the leaf of the topology, a guest sees the host's answer on its own subleaf, with its own
/// number in EDX.
pub proof fn law_topology_leaf_comes_from_the_host(
    vmcs: AutoVmcs,
    before: GuestState,
    after: GuestState,
)
    requires
        is_answer(vmcs, before, after),
        before.rax as u32 == 0xb,
        1 <= vmcs.virtual_processor_id,
    ensures
        exists|host: CpuIdResult|
            {
                &&& #[trigger] host_reports(0xb, before.rcx as u32, host)
                &&& after == (GuestState {
                    rax: host.eax as u64,
                    rbx: host.ebx as u64,
                    rcx: host.ecx as u64,
                    rdx: after.rdx,
                    ..before
                })
                &&& after.rdx == vmcs.virtual_processor_id - 1
            },
{
    let (host, xsave_size) = lemma_answer_has_source(vmcs, before, after);
    law_restrictions(0xb, before.rcx as u32, xsave_size, vmcs, host.loaded(before));
}

/// On the leaves of features, every bit that is neither always shown nor always hidden is that of
/// the host's answer on the guest's own leaf and subleaf.
pub proof fn law_feature_leaves_come_from_the_host(
    vmcs: AutoVmcs,
    before: GuestState,
    after: GuestState,
)
    requires
        is_answer(vmcs, before, after),
        before.rax as u32 == 1 || before.rax as u32 == 6 || before.rax as u32 == 7,
        before.rax as u32 == 1 ==> 1 <= vmcs.virtual_processor_id <= 256,
    ensures
        exists|host: CpuIdResult|
            {
                &&& #[trigger] host_reports(before.rax as u32, before.rcx as u32, host)
                &&& before.rax as u32 == 1 ==> {
                    &&& after.rax == host.eax
                    &&& (after.rbx >> 24) & 0xff == vmcs.virtual_processor_id - 1
                    &&& after.rbx & !0xff00_0000u64 == host.ebx as u64 & !0xff00_0000u64
                    &&& after.rcx & 0x8020_0000 == 0x8020_0000
                    &&& after.rcx & 0x8128 == 0
                    &&& after.rcx & !0x8020_8128u64 == host.ecx as u64 & !0x8020_8128u64
                    &&& after.rdx & 0x800 == 0x800
                    &&& after.rdx & 0x2040_0000 == 0
                    &&& after.rdx & !0x2040_0800u64 == host.edx as u64 & !0x2040_0800u64
                }
                &&& before.rax as u32 == 6 ==> {
                    &&& after.rax & 0x7c1 == 0
                    &&& after.rax & !0x7c1u64 == host.eax as u64 & !0x7c1u64
                    &&& after.rbx == host.ebx
                    &&& after.rcx & 0x9 == 0
                    &&& after.rcx & !0x9u64 == host.ecx as u64 & !0x9u64
                    &&& after.rdx == host.edx
                }
                &&& before.rax as u32 == 7 ==> {
                    &&& after.rax == host.eax
                    &&& vmcs.secondary_vm_exec_control & 0x1000 == 0 ==> after.rbx & 0x200_0400 == 0
                        && after.rbx & !0x200_0400u64 == host.ebx as u64 & !0x200_0400u64
                    &&& vmcs.secondary_vm_exec_control & 0x1000 != 0 ==> after.rbx & 0x200_0000 == 0
                        && after.rbx & !0x200_0000u64 == host.ebx as u64 & !0x200_0000u64
                    &&& after.rcx == host.ecx
                    &&& after.rdx & 0xac00_0000 == 0
                    &&& after.rdx & !0xac00_0000u64 == host.edx as u64 & !0xac00_0000u64
                }
            },
        after == (GuestState {
            rax: after.rax,
            rbx: after.rbx,
            rcx: after.rcx,
            rdx: after.rdx,
            ..before
        }),
{
    let (host, xsave_size) = lemma_answer_has_source(vmcs, before, after);
    law_restrictions(
        before.rax as u32,
        before.rcx as u32,
        xsave_size,
        vmcs,
        host.loaded(before),
    );
}

/// On the base leaves a guest sees the host's answer on the same leaf and its first subleaf, whole.
/// On a leaf that is neither supported nor one of the hypervisor's, it sees the host's answer on the
/// highest supported basic leaf and its own subleaf, whole.
pub proof fn law_unrestricted_leaves_come_from_the_host(
    vmcs: AutoVmcs,
    before: GuestState,
    after: GuestState,
)
    requires
        is_answer(vmcs, before, after),
        !(0 < before.rax as u32 <= 0x17),
        !(0x8000_0000 < before.rax as u32 <= 0x8000_001e),
        before.rax as u32 != 0x4000_0000,
        before.rax as u32 != 0x4000_0001,
    ensures
        exists|host: CpuIdResult|
            {
                &&& before.rax as u32 == 0 || before.rax as u32 == 0x8000_0000 ==> host_reports(
                    before.rax as u32,
                    0,
                    host,
                )
                &&& !(before.rax as u32 == 0 || before.rax as u32 == 0x8000_0000) ==> host_reports(
                    0x17,
                    before.rcx as u32,
                    host,
                )
                &&& after == #[trigger] host.loaded(before)
                &&& after == (GuestState {
                    rax: host.eax as u64,
                    rbx: host.ebx as u64,
                    rcx: host.ecx as u64,
                    rdx: host.edx as u64,
                    ..before
                })
            },
{
    let (host, xsave_size) = lemma_answer_has_source(vmcs, before, after);
    assert(after == host.loaded(before));
}

/// The leaves of the hypervisor, of MONITOR/MWAIT and of performance monitoring have fixed answers.
pub proof fn law_fixed_leaves(vmcs: AutoVmcs, before: GuestState, after: GuestState)
    requires
        is_answer(vmcs, before, after),
    ensures
        before.rax as u32 == 5 || before.rax as u32 == 0x4000_0001 ==> after == (GuestState {
            rax: 0,
            rbx: 0,
            rcx: 0,
            rdx: 0,
            ..before
        }),
        before.rax as u32 == 0xa ==> after == (GuestState {
            rax: 0,
            rbx: 0x7f,
            rcx: 0,
            rdx: 0,
            ..before
        }),
        before.rax as u32 == 0x4000_0000 ==> after == (GuestState {
            rax: 0x4000_0001,
            rbx: 0x4b4d_564b,
            rcx: 0x564b_4d56,
            rdx: 0x4d,
            ..before
        }),
{
    reveal_strlit("KVMKVMKVM\0\0\0");
    let (host, xsave_size) = lemma_answer_has_source(vmcs, before, after);
    if before.rax as u32 == 5 || before.rax as u32 == 0xa {
        law_restrictions(
            before.rax as u32,
            before.rcx as u32,
            xsave_size,
            vmcs,
            host.loaded(before),
        );
    }
}

/// Which leaves are answered, in numbers.
pub proof fn law_answered_leaves(leaf: u32, virtual_processor_id: u16)
    ensures
        is_answered(leaf, virtual_processor_id) <==> {
            &&& 0 < leaf <= 0x17 || 0x8000_0000 < leaf <= 0x8000_001e ==> leaf == 1 || 5 <= leaf
                <= 7 || leaf == 0xa || leaf == 0xb || leaf == 0xd
            &&& leaf == 1 ==> 1 <= virtual_processor_id <= 256
            &&& leaf == 0xb ==> 1 <= virtual_processor_id
        },
{
}

/// The size of an XSAVE area is the end of the highest component, from 2 to 9, that is enabled and
/// whose leaf is not blank: the sum of its offset, in EBX, and of its size, in EAX, in 32 bits. It
/// is 576 where there is no such component. `leaves[i]` is the leaf of component `i + 2`.
pub proof fn law_xsave_size(xcr0: u64, leaves: Seq<CpuIdResult>)
    ensures
        forall|c: int|
            0 <= c < 8 && xcr0 & (1u64 << ((c + 2) as u64)) != 0 && !((#[trigger] leaves[c]).eax == 0
                && leaves[c].ebx == 0 && leaves[c].ecx == 0 && leaves[c].edx == 0) && (forall|
                d: int,
            |
                c < d < 8 ==> xcr0 & (1u64 << ((d + 2) as u64)) == 0 || ((#[trigger] leaves[d]).eax
                    == 0 && leaves[d].ebx == 0 && leaves[d].ecx == 0 && leaves[d].edx == 0))
                ==> area_size(xcr0, leaves, 9) == (leaves[c].ebx + leaves[c].eax) % 0x1_0000_0000,
        (forall|d: int|
            0 <= d < 8 ==> xcr0 & (1u64 << ((d + 2) as u64)) == 0 || ((#[trigger] leaves[d]).eax
                == 0 && leaves[d].ebx == 0 && leaves[d].ecx == 0 && leaves[d].edx == 0))
            ==> area_size(xcr0, leaves, 9) == 576,
{
    assert forall|c: int|
        0 <= c < 8 && xcr0 & (1u64 << ((c + 2) as u64)) != 0 && !((#[trigger] leaves[c]).eax == 0
            && leaves[c].ebx == 0 && leaves[c].ecx == 0 && leaves[c].edx == 0) && (forall|d: int|
            c < d < 8 ==> xcr0 & (1u64 << ((d + 2) as u64)) == 0 || ((#[trigger] leaves[d]).eax == 0
                && leaves[d].ebx == 0 && leaves[d].ecx == 0 && leaves[d].edx == 0)) implies
        area_size(xcr0, leaves, 9) == (leaves[c].ebx + leaves[c].eax) % 0x1_0000_0000 by {
        assert forall|i: int| c + 2 < i <= 9 implies !(#[trigger] extends_area(xcr0, leaves, i)) by {
            assert(leaves[i - 2] == leaves[i - 2]);
        }
        law_xsave_area_ends_with_highest_component(xcr0, leaves, c + 2, 9);
    }
    if forall|d: int|
        0 <= d < 8 ==> xcr0 & (1u64 << ((d + 2) as u64)) == 0 || ((#[trigger] leaves[d]).eax == 0
            && leaves[d].ebx == 0 && leaves[d].ecx == 0 && leaves[d].edx == 0) {
        assert forall|i: int| 2 <= i <= 9 implies !(#[trigger] extends_area(xcr0, leaves, i)) by {
            assert(leaves[i - 2] == leaves[i - 2]);
        }
        law_smallest_xsave_area(xcr0, leaves, 9);
    }
}

/// The size of a guest's XSAVE area rests on what the host reports on each enabled component, on
/// the subleaf with the very number of the component.
pub proof fn law_xsave_size_comes_from_the_host(xcr0: u64, size: u32)
    requires
        is_host_xsave_size(xcr0, size),
    ensures
        exists|leaves: Seq<CpuIdResult>|
            {
                &&& leaves.len() == 8
                &&& xcr0 & 0x4 != 0 ==> host_reports(0xd, 2, leaves[0])
                &&& xcr0 & 0x8 != 0 ==> host_reports(0xd, 3, leaves[1])
                &&& xcr0 & 0x10 != 0 ==> host_reports(0xd, 4, leaves[2])
                &&& xcr0 & 0x20 != 0 ==> host_reports(0xd, 5, leaves[3])
                &&& xcr0 & 0x40 != 0 ==> host_reports(0xd, 6, leaves[4])
                &&& xcr0 & 0x80 != 0 ==> host_reports(0xd, 7, leaves[5])
                &&& xcr0 & 0x100 != 0 ==> host_reports(0xd, 8, leaves[6])
                &&& xcr0 & 0x200 != 0 ==> host_reports(0xd, 9, leaves[7])
                &&& size == #[trigger] area_size(xcr0, leaves, 9)
            },
{
    lemma_component_bits();
    let leaves = choose|leaves: Seq<CpuIdResult>| #[trigger]
        host_reports_components(xcr0, leaves) && size == area_size(xcr0, leaves, 9);
    assert(leaves[0] == leaves[0] && leaves[1] == leaves[1] && leaves[2] == leaves[2] && leaves[3]
        == leaves[3] && leaves[4] == leaves[4] && leaves[5] == leaves[5] && leaves[6] == leaves[6]
        && leaves[7] == leaves[7]);
    assert(size == area_size(xcr0, leaves, 9));
}

/// Where the highest enabled component is `component` and the host's reports on it are not blank,
/// the XSAVE area ends with it, as the host reports on the subleaf of that number.
pub proof fn law_xsave_area_of_highest_component(xcr0: u64, size: u32, component: u32)
    requires
        is_host_xsave_size(xcr0, size),
        2 <= component <= 9,
        xcr0 & (1u64 << (component as u64)) != 0,
        forall|i: u64| component < i <= 9 ==> xcr0 & #[trigger] (1u64 << i) == 0,
        forall|host: CpuIdResult| #[trigger]
            host_reports(0xd, component, host) ==> host.eax != 0 || host.ebx != 0 || host.ecx != 0
                || host.edx != 0,
    ensures
        exists|host: CpuIdResult| #[trigger]
            host_reports(0xd, component, host) && size == (host.ebx + host.eax) % 0x1_0000_0000,
{
    let leaves = choose|leaves: Seq<CpuIdResult>| #[trigger]
        host_reports_components(xcr0, leaves) && size == area_size(xcr0, leaves, 9);
    let host = leaves[component - 2];
    assert(host_reports(0xd, component, host));
    assert forall|d: int| component - 2 < d < 8 implies xcr0 & (1u64 << ((d + 2) as u64)) == 0
        || ((#[trigger] leaves[d]).eax == 0 && leaves[d].ebx == 0 && leaves[d].ecx == 0
        && leaves[d].edx == 0) by {
        let i = (d + 2) as u64;
        assert(xcr0 & (1u64 << i) == 0);
    }
    law_xsave_size(xcr0, leaves);
}

proof fn lemma_component_bits()
    by (bit_vector)
    ensures
        1u64 << 2u64 == 0x4,
        1u64 << 3u64 == 0x8,
        1u64 << 4u64 == 0x10,
        1u64 << 5u64 == 0x20,
        1u64 << 6u64 == 0x40,
        1u64 << 7u64 == 0x80,
        1u64 << 8u64 == 0x100,
        1u64 << 9u64 == 0x200,
{
}

} // verus!
