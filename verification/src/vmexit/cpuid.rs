//! Emulation of the `CPUID` instruction.

use crate::bits::{bit, get_bit, set_bit, set_bits, with_bit, with_bits};
use crate::feature::{
    cpuid, cpuid_c, host_reports, query_host, CpuIdResult, MAX_SUPPORTED_CPUID,
    MAX_SUPPORTED_CPUID_EXT, X86_CPUID_BASE, X86_CPUID_EXTENDED_FEATURE_FLAGS, X86_CPUID_EXT_BASE,
    X86_CPUID_HYP_BASE, X86_CPUID_KVM_FEATURES, X86_CPUID_MODEL_FEATURES, X86_CPUID_MON,
    X86_CPUID_PERFORMANCE_MONITORING, X86_CPUID_THERMAL_AND_POWER, X86_CPUID_TOPOLOGY,
    X86_CPUID_XSAVE, X86_FEATURE_ACPI, X86_FEATURE_ARCH_CAPABILITIES, X86_FEATURE_DTS,
    X86_FEATURE_HWP, X86_FEATURE_HWP_ACT, X86_FEATURE_HWP_NOT, X86_FEATURE_HWP_PREF,
    X86_FEATURE_HW_FEEDBACK, X86_FEATURE_HYPERVISOR, X86_FEATURE_IBRS_IBPB, X86_FEATURE_INVPCID,
    X86_FEATURE_MON, X86_FEATURE_PDCM, X86_FEATURE_PERF_BIAS, X86_FEATURE_PT, X86_FEATURE_PTM,
    X86_FEATURE_SEP, X86_FEATURE_SSBD, X86_FEATURE_STIBP, X86_FEATURE_TM, X86_FEATURE_TM2,
    X86_FEATURE_VMX, X86_FEATURE_X2APIC,
};
use crate::vcpu::GuestState;
use crate::vmcs::{AutoVmcs, K_PROCBASED_CTLS2_INVPCID};
use crate::vmexit::info::ExitInfo;
use crate::vmexit::ExitResult;
use vstd::arithmetic::power2::lemma2_to64;
use vstd::prelude::*;

verus! {

/// The first state component that lies in the extended region of an XSAVE area.
pub const K_FIRST_EXTENDED_STATE_COMPONENT: u32 = 2;

/// The last state component that is taken into account.
pub const K_LAST_EXTENDED_STATE_COMPONENT: u32 = 9;

// From Volume 1, Section 13.4.

pub const K_XSAVE_LEGACY_REGION_SIZE: u32 = 512;

pub const K_XSAVE_HEADER_SIZE: u32 = 64;

/// Whether a state component extends the XSAVE area: it is enabled in `xcr0`, and its leaf, the
/// entry at `component - 2` of `leaves`, is not blank.
pub open spec fn extends_area(xcr0: u64, leaves: Seq<CpuIdResult>, component: int) -> bool {
    &&& bit(xcr0, component as u64)
    &&& !leaves[component - K_FIRST_EXTENDED_STATE_COMPONENT].is_zero()
}

/// Where a state component ends in the XSAVE area: its offset and its size, added up in 32 bits.
pub open spec fn component_end(leaf: CpuIdResult) -> int {
    (leaf.ebx + leaf.eax) % 0x1_0000_0000
}

/// The size of an XSAVE area of the components up to `component`: the end of the highest one that
/// extends the area, or the legacy region and the header where none does.
pub open spec fn area_size(xcr0: u64, leaves: Seq<CpuIdResult>, component: int) -> int
    decreases component,
{
    if component < K_FIRST_EXTENDED_STATE_COMPONENT {
        K_XSAVE_LEGACY_REGION_SIZE + K_XSAVE_HEADER_SIZE
    } else if extends_area(xcr0, leaves, component) {
        component_end(leaves[component - K_FIRST_EXTENDED_STATE_COMPONENT])
    } else {
        area_size(xcr0, leaves, component - 1)
    }
}

/// The size of the XSAVE area of a guest that has enabled `xcr0`, where `leaves` holds what the
/// host reports on the components.
pub fn xsave_size(guest_xcr0: u64, leaves: &[CpuIdResult; 8]) -> (r: u32)
    ensures
        r == area_size(guest_xcr0, leaves@, K_LAST_EXTENDED_STATE_COMPONENT as int),
{
    let mut xsave_size: u32 = K_XSAVE_LEGACY_REGION_SIZE + K_XSAVE_HEADER_SIZE;
    let mut i: u32 = K_FIRST_EXTENDED_STATE_COMPONENT;
    while i <= K_LAST_EXTENDED_STATE_COMPONENT
        invariant
            2 <= i <= 10,
            xsave_size == area_size(guest_xcr0, leaves@, i - 1),
        decreases 10 - i,
    {
        let leaf: CpuIdResult = leaves[(i - K_FIRST_EXTENDED_STATE_COMPONENT) as usize];
        let blank: bool = leaf.eax == 0 && leaf.ebx == 0 && leaf.ecx == 0 && leaf.edx == 0;
        if get_bit(guest_xcr0, i as usize) && !blank {
            let component_offset: u32 = leaf.ebx;
            let component_size: u32 = leaf.eax;
            xsave_size = component_offset.wrapping_add(component_size);
        }
        i += 1;
    }
    xsave_size
}

/// That the host can report `leaves` on the state components that `xcr0` enables.
pub open spec fn host_reports_components(xcr0: u64, leaves: Seq<CpuIdResult>) -> bool {
    &&& leaves.len() == 8
    &&& forall|i: int|
        0 <= i < 8 && bit(xcr0, (i + K_FIRST_EXTENDED_STATE_COMPONENT) as u64) ==> host_reports(
            X86_CPUID_XSAVE,
            (i + K_FIRST_EXTENDED_STATE_COMPONENT) as u32,
            #[trigger] leaves[i],
        )
}

/// That `size` follows from what the host can report on the components that `xcr0` enables.
pub open spec fn is_host_xsave_size(xcr0: u64, size: u32) -> bool {
    exists|leaves: Seq<CpuIdResult>| #[trigger]
        host_reports_components(xcr0, leaves) && size == area_size(
            xcr0,
            leaves,
            K_LAST_EXTENDED_STATE_COMPONENT as int,
        )
}

/// The size of the XSAVE area of a guest that has enabled `guest_xcr0`, on this host.
pub fn compute_xsave_size(guest_xcr0: u64) -> (r: u32)
    ensures
        is_host_xsave_size(guest_xcr0, r),
{
    let mut leaves: [CpuIdResult; 8] = [CpuIdResult { eax: 0, ebx: 0, ecx: 0, edx: 0 };8];
    let mut i: u32 = K_FIRST_EXTENDED_STATE_COMPONENT;
    while i <= K_LAST_EXTENDED_STATE_COMPONENT
        invariant
            2 <= i <= 10,
            forall|k: int|
                0 <= k < i - 2 && bit(guest_xcr0, (k + 2) as u64) ==> host_reports(
                    X86_CPUID_XSAVE,
                    (k + 2) as u32,
                    #[trigger] leaves@[k],
                ),
        decreases 10 - i,
    {
        if get_bit(guest_xcr0, i as usize) {
            let leaf: CpuIdResult = query_host(X86_CPUID_XSAVE, i);
            leaves[(i - K_FIRST_EXTENDED_STATE_COMPONENT) as usize] = leaf;
        }
        i += 1;
    }
    assert(host_reports_components(guest_xcr0, leaves@));
    xsave_size(guest_xcr0, &leaves)
}

/// Leaf 1, ECX: the features that a guest always sees, namely the hypervisor bit and the x2APIC.
pub const MODEL_ECX_SHOWN: u64 = 0x8020_0000;

/// Leaf 1, ECX: the features that no guest sees, namely MONITOR/MWAIT, VMX, TM2 and PDCM.
pub const MODEL_ECX_HIDDEN: u64 = 0x8128;

/// Leaf 1, EDX: the feature that a guest always sees, namely SYSENTER.
pub const MODEL_EDX_SHOWN: u64 = 0x800;

/// Leaf 1, EDX: the features that no guest sees, namely the thermal monitor and its MSR.
pub const MODEL_EDX_HIDDEN: u64 = 0x2040_0000;

/// Leaf 1, EBX: the field of the initial local APIC ID.
pub const MODEL_EBX_APIC_ID: u64 = 0xff00_0000;

/// Leaf 6, EAX: the thermal sensor, the package thermal status and the HWP features.
pub const THERMAL_EAX_HIDDEN: u64 = 0x7c1;

/// Leaf 6, ECX: the hardware coordination feedback and the energy bias.
pub const THERMAL_ECX_HIDDEN: u64 = 0x9;

/// Leaf 7, EBX: `INVPCID`.
pub const EXTENDED_EBX_INVPCID: u64 = 0x400;

/// Leaf 7, EBX: the processor trace.
pub const EXTENDED_EBX_HIDDEN: u64 = 0x200_0000;

/// Leaf 7, EDX: the features whose MSRs are not emulated, namely the controls of speculation and
/// the architectural capabilities.
pub const EXTENDED_EDX_HIDDEN: u64 = 0xac00_0000;

/// Leaf 13, subleaf 1, EAX: `XSAVES` and `XRSTORS`.
pub const XSAVE_EAX_HIDDEN: u64 = 0x8;

/// Leaf 10, EBX: none of the seven events can be counted.
pub const PERFORMANCE_MONITORING_NO_EVENTS: u64 = 0x7f;

/// Whether a guest is answered on the leaf itself, and not as on the highest basic leaf.
pub open spec fn in_supported_range(leaf: u32) -> bool {
    ||| X86_CPUID_BASE < leaf <= MAX_SUPPORTED_CPUID
    ||| X86_CPUID_EXT_BASE < leaf <= MAX_SUPPORTED_CPUID_EXT
}

/// Whether the emulation knows what a guest may see of the leaf.
pub open spec fn has_policy(leaf: u32) -> bool {
    ||| leaf == X86_CPUID_MODEL_FEATURES
    ||| leaf == X86_CPUID_TOPOLOGY
    ||| leaf == X86_CPUID_XSAVE
    ||| leaf == X86_CPUID_THERMAL_AND_POWER
    ||| leaf == X86_CPUID_PERFORMANCE_MONITORING
    ||| leaf == X86_CPUID_MON
    ||| leaf == X86_CPUID_EXTENDED_FEATURE_FLAGS
}

/// Whether the virtual processor ID can stand for an APIC ID where the leaf reports one.
pub open spec fn apic_id_fits(leaf: u32, virtual_processor_id: u16) -> bool {
    &&& leaf == X86_CPUID_MODEL_FEATURES ==> 1 <= virtual_processor_id <= 0x100
    &&& leaf == X86_CPUID_TOPOLOGY ==> 1 <= virtual_processor_id
}

/// Whether the emulation has an answer on the leaf.
pub open spec fn is_answered(leaf: u32, virtual_processor_id: u16) -> bool {
    &&& in_supported_range(leaf) ==> has_policy(leaf)
    &&& apic_id_fits(leaf, virtual_processor_id)
}

/// Whether the emulation has an answer on the leaf.
pub fn can_answer(leaf: u32, virtual_processor_id: u16) -> (r: bool)
    ensures
        r == is_answered(leaf, virtual_processor_id),
{
    match leaf {
        X86_CPUID_MODEL_FEATURES => 1 <= virtual_processor_id && virtual_processor_id <= 0x100,
        X86_CPUID_TOPOLOGY => 1 <= virtual_processor_id,
        X86_CPUID_XSAVE | X86_CPUID_THERMAL_AND_POWER | X86_CPUID_PERFORMANCE_MONITORING
        | X86_CPUID_MON | X86_CPUID_EXTENDED_FEATURE_FLAGS => true,
        _ => {
            !(X86_CPUID_BASE < leaf && leaf <= MAX_SUPPORTED_CPUID) && !(X86_CPUID_EXT_BASE < leaf
                && leaf <= MAX_SUPPORTED_CPUID_EXT)
        },
    }
}

/// What a guest sees of a leaf with a policy, where `host` holds the guest's registers with what
/// the host reports.
pub open spec fn restricted(
    leaf: u32,
    subleaf: u32,
    xsave_size: u32,
    vmcs: AutoVmcs,
    host: GuestState,
) -> GuestState {
    let apic_id = (vmcs.virtual_processor_id - 1) as u64;
    if leaf == X86_CPUID_MODEL_FEATURES {
        GuestState {
            rbx: (host.rbx & !MODEL_EBX_APIC_ID) | (apic_id << 24),
            rcx: (host.rcx | MODEL_ECX_SHOWN) & !MODEL_ECX_HIDDEN,
            rdx: (host.rdx | MODEL_EDX_SHOWN) & !MODEL_EDX_HIDDEN,
            ..host
        }
    } else if leaf == X86_CPUID_TOPOLOGY {
        GuestState { rdx: apic_id, ..host }
    } else if leaf == X86_CPUID_XSAVE && subleaf == 0 {
        GuestState { rbx: xsave_size as u64, ..host }
    } else if leaf == X86_CPUID_XSAVE && subleaf == 1 {
        GuestState { rax: host.rax & !XSAVE_EAX_HIDDEN, ..host }
    } else if leaf == X86_CPUID_THERMAL_AND_POWER {
        GuestState {
            rax: host.rax & !THERMAL_EAX_HIDDEN,
            rcx: host.rcx & !THERMAL_ECX_HIDDEN,
            ..host
        }
    } else if leaf == X86_CPUID_PERFORMANCE_MONITORING {
        host.with_abcd(0, PERFORMANCE_MONITORING_NO_EVENTS, 0, 0)
    } else if leaf == X86_CPUID_MON {
        host.with_abcd(0, 0, 0, 0)
    } else if leaf == X86_CPUID_EXTENDED_FEATURE_FLAGS {
        GuestState {
            rbx: if vmcs.secondary_vm_exec_control & K_PROCBASED_CTLS2_INVPCID == 0 {
                host.rbx & !(EXTENDED_EBX_HIDDEN | EXTENDED_EBX_INVPCID)
            } else {
                host.rbx & !EXTENDED_EBX_HIDDEN
            },
            rdx: host.rdx & !EXTENDED_EDX_HIDDEN,
            ..host
        }
    } else {
        host
    }
}

proof fn lemma_model_features(rbx: u64, rcx: u64, rdx: u64, apic_id: u64)
    by (bit_vector)
    ensures
        with_bits(rbx, 24, 32, apic_id) == (rbx & !MODEL_EBX_APIC_ID) | (apic_id << 24),
        with_bit(
            with_bit(
                with_bit(
                    with_bit(with_bit(with_bit(rcx, 31, true), 21, true), 5, false),
                    15,
                    false,
                ),
                3,
                false,
            ),
            8,
            false,
        ) == (rcx | MODEL_ECX_SHOWN) & !MODEL_ECX_HIDDEN,
        with_bit(with_bit(with_bit(rdx, 11, true), 29, false), 22, false) == (rdx
            | MODEL_EDX_SHOWN) & !MODEL_EDX_HIDDEN,
{
}

proof fn lemma_thermal(rax: u64, rcx: u64)
    by (bit_vector)
    ensures
        with_bit(with_bit(rcx, 3, false), 0, false) == rcx & !THERMAL_ECX_HIDDEN,
        with_bit(
            with_bit(
                with_bit(with_bit(with_bit(with_bit(rax, 0, false), 6, false), 7, false), 8, false),
                9,
                false,
            ),
            10,
            false,
        ) == rax & !THERMAL_EAX_HIDDEN,
{
}

proof fn lemma_extended_features(rbx: u64, rdx: u64)
    by (bit_vector)
    ensures
        with_bit(with_bit(rbx, 10, false), 25, false) == rbx & !(EXTENDED_EBX_HIDDEN
            | EXTENDED_EBX_INVPCID),
        with_bit(rbx, 25, false) == rbx & !EXTENDED_EBX_HIDDEN,
        with_bit(
            with_bit(with_bit(with_bit(rdx, 26, false), 27, false), 31, false),
            29,
            false,
        ) == rdx & !EXTENDED_EDX_HIDDEN,
{
}

/// Changes what the host reports on a leaf, which the guest's registers hold, into what the guest
/// may see of it. `xsave_size` is used on the first subleaf of the XSAVE leaf only.
pub fn restrict_cpuid(
    leaf: u32,
    subleaf: u32,
    xsave_size: u32,
    vmcs: &AutoVmcs,
    guest_state: &mut GuestState,
)
    requires
        has_policy(leaf),
        apic_id_fits(leaf, vmcs.virtual_processor_id),
    ensures
        *final(guest_state) == restricted(leaf, subleaf, xsave_size, *vmcs, *old(guest_state)),
{
    match leaf {
        X86_CPUID_MODEL_FEATURES => {
            let apic_id: u64 = (vmcs.virtual_processor_id - 1) as u64;
            proof {
                lemma2_to64();
                lemma_model_features(guest_state.rbx, guest_state.rcx, guest_state.rdx, apic_id);
            }
            // Override the initial local APIC ID. From Vol 2, Table 3-8.
            set_bits(&mut guest_state.rbx, 24, 32, apic_id);
            // Enable the hypervisor bit.
            set_bit(&mut guest_state.rcx, X86_FEATURE_HYPERVISOR, true);
            // Enable the x2APIC bit.
            set_bit(&mut guest_state.rcx, X86_FEATURE_X2APIC, true);
            // Disable the VMX bit.
            set_bit(&mut guest_state.rcx, X86_FEATURE_VMX, false);
            // Disable the PDCM bit.
            set_bit(&mut guest_state.rcx, X86_FEATURE_PDCM, false);
            // Disable MONITOR/MWAIT.
            set_bit(&mut guest_state.rcx, X86_FEATURE_MON, false);
            // Disable THERM_INTERRUPT and THERM_STATUS MSRs
            set_bit(&mut guest_state.rcx, X86_FEATURE_TM2, false);
            // Enable the SEP (SYSENTER support).
            set_bit(&mut guest_state.rdx, X86_FEATURE_SEP, true);
            // Disable the Thermal Monitor bit.
            set_bit(&mut guest_state.rdx, X86_FEATURE_TM, false);
            // Disable the THERM_CONTROL_MSR bit.
            set_bit(&mut guest_state.rdx, X86_FEATURE_ACPI, false);
        },
        X86_CPUID_TOPOLOGY => {
            guest_state.rdx = (vmcs.virtual_processor_id - 1) as u64;
        },
        X86_CPUID_XSAVE => {
            if subleaf == 0 {
                guest_state.rbx = xsave_size as u64;
            } else if subleaf == 1 {
                let rax: u64 = guest_state.rax;
                assert(with_bit(rax, 3, false) == rax & !XSAVE_EAX_HIDDEN) by (bit_vector);
                set_bit(&mut guest_state.rax, 3, false);
            }
        },
        X86_CPUID_THERMAL_AND_POWER => {
            proof {
                lemma_thermal(guest_state.rax, guest_state.rcx);
            }
            // Disable the performance energy bias bit.
            set_bit(&mut guest_state.rcx, X86_FEATURE_PERF_BIAS, false);
            // Disable the hardware coordination feedback bit.
            set_bit(&mut guest_state.rcx, X86_FEATURE_HW_FEEDBACK, false);
            // Disable Digital Thermal Sensor
            set_bit(&mut guest_state.rax, X86_FEATURE_DTS, false);
            // Disable Package Thermal Status MSR.
            set_bit(&mut guest_state.rax, X86_FEATURE_PTM, false);
            // Disable THERM_STATUS MSR bits 10/11 & THERM_INTERRUPT MSR bit 24
            // Disable HWP MSRs.
            set_bit(&mut guest_state.rax, X86_FEATURE_HWP, false);
            set_bit(&mut guest_state.rax, X86_FEATURE_HWP_NOT, false);
            set_bit(&mut guest_state.rax, X86_FEATURE_HWP_ACT, false);
            set_bit(&mut guest_state.rax, X86_FEATURE_HWP_PREF, false);
        },
        X86_CPUID_PERFORMANCE_MONITORING => {
            // Disable all performance monitoring.
            // 31-07 = Reserved 0, 06-00 = 1 if event is not available.
            guest_state.rax = 0;
            guest_state.rbx = PERFORMANCE_MONITORING_NO_EVENTS;
            guest_state.rcx = 0;
            guest_state.rdx = 0;
        },
        X86_CPUID_MON => {
            // MONITOR/MWAIT are not implemented.
            guest_state.rax = 0;
            guest_state.rbx = 0;
            guest_state.rcx = 0;
            guest_state.rdx = 0;
        },
        _ => {
            assert(leaf == X86_CPUID_EXTENDED_FEATURE_FLAGS);
            proof {
                lemma_extended_features(guest_state.rbx, guest_state.rdx);
            }
            // The host may report INVPCID although VMX does not allow the guest to execute it.
            if (vmcs.secondary_vm_exec_control & K_PROCBASED_CTLS2_INVPCID) == 0 {
                set_bit(&mut guest_state.rbx, X86_FEATURE_INVPCID, false);
            }
            // Disable the Processor Trace bit.
            set_bit(&mut guest_state.rbx, X86_FEATURE_PT, false);
            // These imply support for the IA32_SPEC_CTRL and IA32_PRED_CMD
            // MSRs, which are not implemented.
            set_bit(&mut guest_state.rdx, X86_FEATURE_IBRS_IBPB, false);
            set_bit(&mut guest_state.rdx, X86_FEATURE_STIBP, false);
            set_bit(&mut guest_state.rdx, X86_FEATURE_SSBD, false);
            // Disable support of IA32_ARCH_CAPABILITIES MSR.
            set_bit(&mut guest_state.rdx, X86_FEATURE_ARCH_CAPABILITIES, false);
        },
    }
}

/// By what a guest recognises the hypervisor.
pub const VENDOR_STRING: &'static str = "KVMKVMKVM\0\0\0";

/// The characters `at..at + 4` of `text`, as a processor loads them into a register.
pub open spec fn word_of(text: Seq<char>, at: int) -> int {
    text[at] as int + text[at + 1] as int * 0x100 + text[at + 2] as int * 0x1_0000 + text[at
        + 3] as int * 0x100_0000
}

/// The vendor string in three registers.
pub fn vendor_id() -> (r: [u32; 3])
    ensures
        r@[0] == word_of(VENDOR_STRING@, 0),
        r@[1] == word_of(VENDOR_STRING@, 4),
        r@[2] == word_of(VENDOR_STRING@, 8),
{
    proof {
        reveal_strlit("KVMKVMKVM\0\0\0");
    }
    [0x4b4d_564b, 0x564b_4d56, 0x4d]
}

/// The leaf and the subleaf on which the host is asked, where the answer depends on the host.
pub open spec fn host_query(leaf: u32, subleaf: u32) -> Option<(u32, u32)> {
    if leaf == X86_CPUID_BASE || leaf == X86_CPUID_EXT_BASE {
        Some((leaf, 0))
    } else if in_supported_range(leaf) {
        Some((leaf, subleaf))
    } else if leaf == X86_CPUID_HYP_BASE || leaf == X86_CPUID_KVM_FEATURES {
        None
    } else {
        Some((MAX_SUPPORTED_CPUID, subleaf))
    }
}

/// What a guest is answered on a leaf, where `host` is what the host reports on its query.
pub open spec fn answer(
    leaf: u32,
    subleaf: u32,
    host: CpuIdResult,
    xsave_size: u32,
    vmcs: AutoVmcs,
    guest_state: GuestState,
) -> GuestState {
    if in_supported_range(leaf) {
        restricted(leaf, subleaf, xsave_size, vmcs, host.loaded(guest_state))
    } else if leaf == X86_CPUID_HYP_BASE {
        guest_state.with_abcd(
            X86_CPUID_KVM_FEATURES as u64,
            word_of(VENDOR_STRING@, 0) as u64,
            word_of(VENDOR_STRING@, 4) as u64,
            word_of(VENDOR_STRING@, 8) as u64,
        )
    } else if leaf == X86_CPUID_KVM_FEATURES {
        guest_state.with_abcd(0, 0, 0, 0)
    } else {
        host.loaded(guest_state)
    }
}

/// That `after` is what the guest in the state `before` can be answered: the host is asked on the
/// query of the leaf, and on the size of the XSAVE area where the leaf reports it.
pub open spec fn is_answer(vmcs: AutoVmcs, before: GuestState, after: GuestState) -> bool {
    let leaf = before.rax as u32;
    let subleaf = before.rcx as u32;
    exists|host: CpuIdResult, xsave_size: u32|
        {
            &&& host_query(leaf, subleaf) matches Some(query) ==> host_reports(
                query.0,
                query.1,
                host,
            )
            &&& leaf == X86_CPUID_XSAVE && subleaf == 0 ==> is_host_xsave_size(
                before.xcr0,
                xsave_size,
            )
            &&& after == #[trigger] answer(leaf, subleaf, host, xsave_size, vmcs, before)
        }
}

/// Emulates `CPUID`: the guest sees what the host reports, as far as it may.
pub fn handle_cpuid(
    exit_info: &ExitInfo,
    vmcs: &mut AutoVmcs,
    guest_state: &mut GuestState,
) -> (r: ExitResult)
    requires
        exit_info.following_rip() <= usize::MAX,
        is_answered(old(guest_state).rax as u32, old(vmcs).virtual_processor_id),
    ensures
        r == ExitResult::Ok(None),
        *final(vmcs) == old(vmcs).with_rip(exit_info.following_rip()),
        is_answer(*old(vmcs), *old(guest_state), *final(guest_state)),
{
    let leaf: u32 = guest_state.rax as u32;
    let subleaf: u32 = guest_state.rcx as u32;
    let ghost before = *guest_state;
    let ghost vmcs_before = *vmcs;

    exit_info.next_rip(vmcs);

    let supported: bool = (X86_CPUID_BASE < leaf && leaf <= MAX_SUPPORTED_CPUID) || (
    X86_CPUID_EXT_BASE < leaf && leaf <= MAX_SUPPORTED_CPUID_EXT);
    if leaf == X86_CPUID_BASE || leaf == X86_CPUID_EXT_BASE {
        cpuid(leaf, guest_state);
        let ghost host = choose|host: CpuIdResult| #[trigger]
            host_reports(leaf, 0, host) && *guest_state == host.loaded(before);
        assert(*guest_state == answer(leaf, subleaf, host, 0, vmcs_before, before));
    } else if supported {
        cpuid_c(leaf, subleaf, guest_state);
        let ghost host = choose|host: CpuIdResult| #[trigger]
            host_reports(leaf, subleaf, host) && *guest_state == host.loaded(before);
        let xsave_size: u32 = if leaf == X86_CPUID_XSAVE && subleaf == 0 {
            compute_xsave_size(guest_state.xcr0)
        } else {
            0
        };
        restrict_cpuid(leaf, subleaf, xsave_size, vmcs, guest_state);
        assert(*guest_state == answer(leaf, subleaf, host, xsave_size, vmcs_before, before));
    } else if leaf == X86_CPUID_HYP_BASE {
        // This leaf is commonly used to identify a hypervisor via ebx:ecx:edx.
        //
        // A hypervisor that presents itself as KVM returns the highest leaf that it
        // supports in EAX; see the Linux kernel documentation on the CPUID bits of KVM.
        guest_state.rax = X86_CPUID_KVM_FEATURES as u64;
        let vendor_id: [u32; 3] = vendor_id();
        guest_state.rbx = vendor_id[0] as u64;
        guest_state.rcx = vendor_id[1] as u64;
        guest_state.rdx = vendor_id[2] as u64;
        assert(*guest_state == answer(leaf, subleaf, arbitrary(), 0, vmcs_before, before));
    } else if leaf == X86_CPUID_KVM_FEATURES {
        guest_state.rax = 0;
        guest_state.rbx = 0;
        guest_state.rcx = 0;
        guest_state.rdx = 0;
        assert(*guest_state == answer(leaf, subleaf, arbitrary(), 0, vmcs_before, before));
    } else {
        cpuid_c(MAX_SUPPORTED_CPUID, subleaf, guest_state);
        let ghost host = choose|host: CpuIdResult| #[trigger]
            host_reports(MAX_SUPPORTED_CPUID, subleaf, host) && *guest_state == host.loaded(before);
        assert(*guest_state == answer(leaf, subleaf, host, 0, vmcs_before, before));
    }
    Ok(None)
}

} // verus!
