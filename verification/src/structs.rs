//! The basic exit reasons of VMX.

use vstd::prelude::*;

verus! {

/// Why a guest left VMX non-root operation (Intel SDM, volume 3, appendix C).
#[allow(non_camel_case_types)]
#[derive(Debug, Clone, Copy, PartialEq, Eq, Structural)]
pub enum ExitReason {
    EXCEPTION_NMI,
    EXTERNAL_INTERRUPT,
    TRIPLE_FAULT,
    INIT,
    SIPI,
    SMI,
    OTHER_SMI,
    INTERRUPT_WINDOW,
    NMI_WINDOW,
    TASK_SWITCH,
    CPUID,
    GETSEC,
    HLT,
    INVD,
    INVLPG,
    RDPMC,
    RDTSC,
    RSM,
    VMCALL,
    VMCLEAR,
    VMLAUNCH,
    VMPTRLD,
    VMPTRST,
    VMREAD,
    VMRESUME,
    VMWRITE,
    VMOFF,
    VMON,
    CR_ACCESS,
    DR_ACCESS,
    IO_INSTRUCTION,
    MSR_READ,
    MSR_WRITE,
    INVALID_GUEST_STATE,
    MSR_LOAD_FAIL,
    MWAIT_INSTRUCTION,
    MONITOR_TRAP_FLAG,
    MONITOR_INSTRUCTION,
    PAUSE_INSTRUCTION,
    MCE_DURING_VMENTRY,
    TPR_BELOW_THRESHOLD,
    APIC_ACCESS,
    VIRTUALIZED_EOI,
    GDTR_IDTR,
    LDTR_TR,
    EPT_VIOLATION,
    EPT_MISCONFIG,
    INVEPT,
    RDTSCP,
    PREEMPTION_TIMER,
    INVVPID,
    WBINVD,
    XSETBV,
    APIC_WRITE,
    RDRAND,
    INVPCID,
    VMFUNC,
    ENCLS,
    RDSEED,
    PML_FULL,
    XSAVES,
    XRSTORS,
}

impl ExitReason {
    /// The number by which the processor reports the reason.
    pub open spec fn code(self) -> u32 {
        match self {
            ExitReason::EXCEPTION_NMI => 0,
            ExitReason::EXTERNAL_INTERRUPT => 1,
            ExitReason::TRIPLE_FAULT => 2,
            ExitReason::INIT => 3,
            ExitReason::SIPI => 4,
            ExitReason::SMI => 5,
            ExitReason::OTHER_SMI => 6,
            ExitReason::INTERRUPT_WINDOW => 7,
            ExitReason::NMI_WINDOW => 8,
            ExitReason::TASK_SWITCH => 9,
            ExitReason::CPUID => 10,
            ExitReason::GETSEC => 11,
            ExitReason::HLT => 12,
            ExitReason::INVD => 13,
            ExitReason::INVLPG => 14,
            ExitReason::RDPMC => 15,
            ExitReason::RDTSC => 16,
            ExitReason::RSM => 17,
            ExitReason::VMCALL => 18,
            ExitReason::VMCLEAR => 19,
            ExitReason::VMLAUNCH => 20,
            ExitReason::VMPTRLD => 21,
            ExitReason::VMPTRST => 22,
            ExitReason::VMREAD => 23,
            ExitReason::VMRESUME => 24,
            ExitReason::VMWRITE => 25,
            ExitReason::VMOFF => 26,
            ExitReason::VMON => 27,
            ExitReason::CR_ACCESS => 28,
            ExitReason::DR_ACCESS => 29,
            ExitReason::IO_INSTRUCTION => 30,
            ExitReason::MSR_READ => 31,
            ExitReason::MSR_WRITE => 32,
            ExitReason::INVALID_GUEST_STATE => 33,
            ExitReason::MSR_LOAD_FAIL => 34,
            ExitReason::MWAIT_INSTRUCTION => 36,
            ExitReason::MONITOR_TRAP_FLAG => 37,
            ExitReason::MONITOR_INSTRUCTION => 39,
            ExitReason::PAUSE_INSTRUCTION => 40,
            ExitReason::MCE_DURING_VMENTRY => 41,
            ExitReason::TPR_BELOW_THRESHOLD => 43,
            ExitReason::APIC_ACCESS => 44,
            ExitReason::VIRTUALIZED_EOI => 45,
            ExitReason::GDTR_IDTR => 46,
            ExitReason::LDTR_TR => 47,
            ExitReason::EPT_VIOLATION => 48,
            ExitReason::EPT_MISCONFIG => 49,
            ExitReason::INVEPT => 50,
            ExitReason::RDTSCP => 51,
            ExitReason::PREEMPTION_TIMER => 52,
            ExitReason::INVVPID => 53,
            ExitReason::WBINVD => 54,
            ExitReason::XSETBV => 55,
            ExitReason::APIC_WRITE => 56,
            ExitReason::RDRAND => 57,
            ExitReason::INVPCID => 58,
            ExitReason::VMFUNC => 59,
            ExitReason::ENCLS => 60,
            ExitReason::RDSEED => 61,
            ExitReason::PML_FULL => 62,
            ExitReason::XSAVES => 63,
            ExitReason::XRSTORS => 64,
        }
    }

    /// Whether `code` is the number of a reason.
    pub open spec fn known(code: u32) -> bool {
        code <= 64 && code != 35 && code != 38 && code != 42
    }

    /// The reason that the processor reports as `code`, where `code` is the number of one.
    pub open spec fn with_code(code: u32) -> ExitReason {
        choose|reason: ExitReason| reason.code() == code
    }

    /// The reason that the processor reports as `code`, if there is one.
    pub fn from_code(code: u32) -> (r: Option<ExitReason>)
        ensures
            r is Some <==> Self::known(code),
            r matches Some(reason) ==> reason.code() == code && reason == Self::with_code(code),
    {
        let reason: Option<ExitReason> = match code {
            0 => Some(ExitReason::EXCEPTION_NMI),
            1 => Some(ExitReason::EXTERNAL_INTERRUPT),
            2 => Some(ExitReason::TRIPLE_FAULT),
            3 => Some(ExitReason::INIT),
            4 => Some(ExitReason::SIPI),
            5 => Some(ExitReason::SMI),
            6 => Some(ExitReason::OTHER_SMI),
            7 => Some(ExitReason::INTERRUPT_WINDOW),
            8 => Some(ExitReason::NMI_WINDOW),
            9 => Some(ExitReason::TASK_SWITCH),
            10 => Some(ExitReason::CPUID),
            11 => Some(ExitReason::GETSEC),
            12 => Some(ExitReason::HLT),
            13 => Some(ExitReason::INVD),
            14 => Some(ExitReason::INVLPG),
            15 => Some(ExitReason::RDPMC),
            16 => Some(ExitReason::RDTSC),
            17 => Some(ExitReason::RSM),
            18 => Some(ExitReason::VMCALL),
            19 => Some(ExitReason::VMCLEAR),
            20 => Some(ExitReason::VMLAUNCH),
            21 => Some(ExitReason::VMPTRLD),
            22 => Some(ExitReason::VMPTRST),
            23 => Some(ExitReason::VMREAD),
            24 => Some(ExitReason::VMRESUME),
            25 => Some(ExitReason::VMWRITE),
            26 => Some(ExitReason::VMOFF),
            27 => Some(ExitReason::VMON),
            28 => Some(ExitReason::CR_ACCESS),
            29 => Some(ExitReason::DR_ACCESS),
            30 => Some(ExitReason::IO_INSTRUCTION),
            31 => Some(ExitReason::MSR_READ),
            32 => Some(ExitReason::MSR_WRITE),
            33 => Some(ExitReason::INVALID_GUEST_STATE),
            34 => Some(ExitReason::MSR_LOAD_FAIL),
            36 => Some(ExitReason::MWAIT_INSTRUCTION),
            37 => Some(ExitReason::MONITOR_TRAP_FLAG),
            39 => Some(ExitReason::MONITOR_INSTRUCTION),
            40 => Some(ExitReason::PAUSE_INSTRUCTION),
            41 => Some(ExitReason::MCE_DURING_VMENTRY),
            43 => Some(ExitReason::TPR_BELOW_THRESHOLD),
            44 => Some(ExitReason::APIC_ACCESS),
            45 => Some(ExitReason::VIRTUALIZED_EOI),
            46 => Some(ExitReason::GDTR_IDTR),
            47 => Some(ExitReason::LDTR_TR),
            48 => Some(ExitReason::EPT_VIOLATION),
            49 => Some(ExitReason::EPT_MISCONFIG),
            50 => Some(ExitReason::INVEPT),
            51 => Some(ExitReason::RDTSCP),
            52 => Some(ExitReason::PREEMPTION_TIMER),
            53 => Some(ExitReason::INVVPID),
            54 => Some(ExitReason::WBINVD),
            55 => Some(ExitReason::XSETBV),
            56 => Some(ExitReason::APIC_WRITE),
            57 => Some(ExitReason::RDRAND),
            58 => Some(ExitReason::INVPCID),
            59 => Some(ExitReason::VMFUNC),
            60 => Some(ExitReason::ENCLS),
            61 => Some(ExitReason::RDSEED),
            62 => Some(ExitReason::PML_FULL),
            63 => Some(ExitReason::XSAVES),
            64 => Some(ExitReason::XRSTORS),
            _ => None,
        };
        proof {
            if let Some(found) = reason {
                Self::law_codes_are_distinct(found, Self::with_code(code));
            }
        }
        reason
    }

    /// No two reasons share a number, and every reason has a known one.
    pub proof fn law_codes_are_distinct(a: ExitReason, b: ExitReason)
        ensures
            a.code() == b.code() ==> a == b,
            Self::known(a.code()),
    {
    }

    /// The number of each reason (Intel SDM, volume 3, appendix C).
    pub proof fn law_numbers_of_reasons(reason: ExitReason)
        ensures
            reason.code() == 0 <==> reason is EXCEPTION_NMI,
            reason.code() == 1 <==> reason is EXTERNAL_INTERRUPT,
            reason.code() == 2 <==> reason is TRIPLE_FAULT,
            reason.code() == 3 <==> reason is INIT,
            reason.code() == 4 <==> reason is SIPI,
            reason.code() == 5 <==> reason is SMI,
            reason.code() == 6 <==> reason is OTHER_SMI,
            reason.code() == 7 <==> reason is INTERRUPT_WINDOW,
            reason.code() == 8 <==> reason is NMI_WINDOW,
            reason.code() == 9 <==> reason is TASK_SWITCH,
            reason.code() == 10 <==> reason is CPUID,
            reason.code() == 11 <==> reason is GETSEC,
            reason.code() == 12 <==> reason is HLT,
            reason.code() == 13 <==> reason is INVD,
            reason.code() == 14 <==> reason is INVLPG,
            reason.code() == 15 <==> reason is RDPMC,
            reason.code() == 16 <==> reason is RDTSC,
            reason.code() == 17 <==> reason is RSM,
            reason.code() == 18 <==> reason is VMCALL,
            reason.code() == 19 <==> reason is VMCLEAR,
            reason.code() == 20 <==> reason is VMLAUNCH,
            reason.code() == 21 <==> reason is VMPTRLD,
            reason.code() == 22 <==> reason is VMPTRST,
            reason.code() == 23 <==> reason is VMREAD,
            reason.code() == 24 <==> reason is VMRESUME,
            reason.code() == 25 <==> reason is VMWRITE,
            reason.code() == 26 <==> reason is VMOFF,
            reason.code() == 27 <==> reason is VMON,
            reason.code() == 28 <==> reason is CR_ACCESS,
            reason.code() == 29 <==> reason is DR_ACCESS,
            reason.code() == 30 <==> reason is IO_INSTRUCTION,
            reason.code() == 31 <==> reason is MSR_READ,
            reason.code() == 32 <==> reason is MSR_WRITE,
            reason.code() == 33 <==> reason is INVALID_GUEST_STATE,
            reason.code() == 34 <==> reason is MSR_LOAD_FAIL,
            reason.code() == 36 <==> reason is MWAIT_INSTRUCTION,
            reason.code() == 37 <==> reason is MONITOR_TRAP_FLAG,
            reason.code() == 39 <==> reason is MONITOR_INSTRUCTION,
            reason.code() == 40 <==> reason is PAUSE_INSTRUCTION,
            reason.code() == 41 <==> reason is MCE_DURING_VMENTRY,
            reason.code() == 43 <==> reason is TPR_BELOW_THRESHOLD,
            reason.code() == 44 <==> reason is APIC_ACCESS,
            reason.code() == 45 <==> reason is VIRTUALIZED_EOI,
            reason.code() == 46 <==> reason is GDTR_IDTR,
            reason.code() == 47 <==> reason is LDTR_TR,
            reason.code() == 48 <==> reason is EPT_VIOLATION,
            reason.code() == 49 <==> reason is EPT_MISCONFIG,
            reason.code() == 50 <==> reason is INVEPT,
            reason.code() == 51 <==> reason is RDTSCP,
            reason.code() == 52 <==> reason is PREEMPTION_TIMER,
            reason.code() == 53 <==> reason is INVVPID,
            reason.code() == 54 <==> reason is WBINVD,
            reason.code() == 55 <==> reason is XSETBV,
            reason.code() == 56 <==> reason is APIC_WRITE,
            reason.code() == 57 <==> reason is RDRAND,
            reason.code() == 58 <==> reason is INVPCID,
            reason.code() == 59 <==> reason is VMFUNC,
            reason.code() == 60 <==> reason is ENCLS,
            reason.code() == 61 <==> reason is RDSEED,
            reason.code() == 62 <==> reason is PML_FULL,
            reason.code() == 63 <==> reason is XSAVES,
            reason.code() == 64 <==> reason is XRSTORS,
    {
    }
}

} // verus!
