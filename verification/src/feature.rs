//! Processor identification: the leaves of `CPUID`, its feature bits, and what the host reports.

use crate::vcpu::GuestState;
use vstd::prelude::*;

verus! {

/// The leaf that reports the vendor and the highest basic leaf.
pub const X86_CPUID_BASE: u32 = 0x0;

pub const X86_CPUID_MODEL_FEATURES: u32 = 0x1;

pub const X86_CPUID_MON: u32 = 0x5;

pub const X86_CPUID_THERMAL_AND_POWER: u32 = 0x6;

pub const X86_CPUID_EXTENDED_FEATURE_FLAGS: u32 = 0x7;

pub const X86_CPUID_PERFORMANCE_MONITORING: u32 = 0xa;

pub const X86_CPUID_TOPOLOGY: u32 = 0xb;

pub const X86_CPUID_XSAVE: u32 = 0xd;

/// The leaf by which a hypervisor is identified.
pub const X86_CPUID_HYP_BASE: u32 = 0x4000_0000;

pub const X86_CPUID_KVM_FEATURES: u32 = 0x4000_0001;

/// The leaf that reports the highest extended leaf.
pub const X86_CPUID_EXT_BASE: u32 = 0x8000_0000;

/// The highest basic leaf that guests are answered on.
pub const MAX_SUPPORTED_CPUID: u32 = 0x17;

/// The highest extended leaf that guests are answered on.
pub const MAX_SUPPORTED_CPUID_EXT: u32 = 0x8000_001e;

// Leaf 1, ECX.

pub const X86_FEATURE_MON: usize = 3;

pub const X86_FEATURE_VMX: usize = 5;

pub const X86_FEATURE_TM2: usize = 8;

pub const X86_FEATURE_PDCM: usize = 15;

pub const X86_FEATURE_X2APIC: usize = 21;

pub const X86_FEATURE_HYPERVISOR: usize = 31;

// Leaf 1, EDX.

pub const X86_FEATURE_SEP: usize = 11;

pub const X86_FEATURE_ACPI: usize = 22;

pub const X86_FEATURE_TM: usize = 29;

// Leaf 6, EAX.

pub const X86_FEATURE_DTS: usize = 0;

pub const X86_FEATURE_PTM: usize = 6;

pub const X86_FEATURE_HWP: usize = 7;

pub const X86_FEATURE_HWP_NOT: usize = 8;

pub const X86_FEATURE_HWP_ACT: usize = 9;

pub const X86_FEATURE_HWP_PREF: usize = 10;

// Leaf 6, ECX.

pub const X86_FEATURE_HW_FEEDBACK: usize = 0;

pub const X86_FEATURE_PERF_BIAS: usize = 3;

// Leaf 7, EBX.

pub const X86_FEATURE_INVPCID: usize = 10;

pub const X86_FEATURE_PT: usize = 25;

// Leaf 7, EDX.

pub const X86_FEATURE_IBRS_IBPB: usize = 26;

pub const X86_FEATURE_STIBP: usize = 27;

pub const X86_FEATURE_ARCH_CAPABILITIES: usize = 29;

pub const X86_FEATURE_SSBD: usize = 31;

/// The four registers that `CPUID` writes.
#[derive(Debug, Clone, Copy, PartialEq, Eq, Structural)]
pub struct CpuIdResult {
    pub eax: u32,
    pub ebx: u32,
    pub ecx: u32,
    pub edx: u32,
}

impl CpuIdResult {
    /// Whether all four registers are zero.
    pub open spec fn is_zero(self) -> bool {
        self.eax == 0 && self.ebx == 0 && self.ecx == 0 && self.edx == 0
    }

    /// `guest_state` with these values, extended by zeros, in the registers that `CPUID` writes.
    pub open spec fn loaded(self, guest_state: GuestState) -> GuestState {
        guest_state.with_abcd(self.eax as u64, self.ebx as u64, self.ecx as u64, self.edx as u64)
    }
}

/// Calls `raw_cpuid::native_cpuid::cpuid_count`, which executes `CPUID` on the host. Trusted:
/// nothing. What comes back depends on the processor that the call runs on.
#[verifier::external_body]
pub(crate) fn host_cpuid(leaf: u32, subleaf: u32) -> (r: CpuIdResult)
{
    let res = raw_cpuid::native_cpuid::cpuid_count(leaf, subleaf);
    CpuIdResult { eax: res.eax, ebx: res.ebx, ecx: res.ecx, edx: res.edx }
}

/// That the host can answer `CPUID` on a leaf and a subleaf with `r`.
pub closed spec fn host_reports(leaf: u32, subleaf: u32, r: CpuIdResult) -> bool {
    call_ensures(host_cpuid, (leaf, subleaf), r)
}

/// What the host can report on a leaf and a subleaf is what it can answer when it is asked on just
/// these two.
pub(crate) proof fn law_host_is_asked_on_leaf_and_subleaf(leaf: u32, subleaf: u32, r: CpuIdResult)
    ensures
        host_reports(leaf, subleaf, r) <==> call_ensures(host_cpuid, (leaf, subleaf), r),
{
}

/// What the host reports on a leaf and a subleaf.
pub fn query_host(leaf: u32, subleaf: u32) -> (r: CpuIdResult)
    ensures
        host_reports(leaf, subleaf, r),
{
    host_cpuid(leaf, subleaf)
}

/// Puts the four registers that `CPUID` writes into the guest's registers.
pub fn load_cpuid(result: CpuIdResult, guest_state: &mut GuestState)
    ensures
        *final(guest_state) == result.loaded(*old(guest_state)),
        *final(guest_state) == (GuestState {
            rax: result.eax as u64,
            rbx: result.ebx as u64,
            rcx: result.ecx as u64,
            rdx: result.edx as u64,
            ..*old(guest_state)
        }),
{
    guest_state.rax = result.eax as u64;
    guest_state.rbx = result.ebx as u64;
    guest_state.rcx = result.ecx as u64;
    guest_state.rdx = result.edx as u64;
}

/// Answers the guest with what the host reports on a leaf and a subleaf.
pub fn cpuid_c(leaf: u32, subleaf: u32, guest_state: &mut GuestState)
    ensures
        exists|host: CpuIdResult| #[trigger]
            host_reports(leaf, subleaf, host) && *final(guest_state) == host.loaded(
                *old(guest_state),
            ) && *final(guest_state) == (GuestState {
                rax: host.eax as u64,
                rbx: host.ebx as u64,
                rcx: host.ecx as u64,
                rdx: host.edx as u64,
                ..*old(guest_state)
            }),
{
    let host = query_host(leaf, subleaf);
    load_cpuid(host, guest_state);
}

/// Answers the guest with what the host reports on the first subleaf of a leaf.
pub fn cpuid(leaf: u32, guest_state: &mut GuestState)
    ensures
        exists|host: CpuIdResult| #[trigger]
            host_reports(leaf, 0, host) && *final(guest_state) == host.loaded(*old(guest_state))
                && *final(guest_state) == (GuestState {
                rax: host.eax as u64,
                rbx: host.ebx as u64,
                rcx: host.ecx as u64,
                rdx: host.edx as u64,
                ..*old(guest_state)
            }),
{
    cpuid_c(leaf, 0, guest_state);
}

} // verus!
