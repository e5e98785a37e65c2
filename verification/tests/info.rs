use rvm::structs::ExitReason;
use rvm::vmcs::AutoVmcs;
use rvm::vmexit::info::{EptViolationInfo, ExitInfo, ExitInterruptionInfo, IoInfo};

fn vmcs() -> AutoVmcs {
    AutoVmcs {
        virtual_processor_id: 1,
        vm_exit_reason: 0,
        vm_exit_instruction_len: 0,
        vm_exit_intr_info: 0,
        cpu_based_vm_exec_control: 0,
        secondary_vm_exec_control: 0,
        guest_cs_ar_bytes: 0,
        guest_ia32_efer: 0,
        guest_physical_address: 0,
        exit_qualification: 0,
        guest_rip: 0,
        guest_cs_base: 0,
    }
}

#[test]
fn exit_info_takes_the_low_half_of_the_reason() {
    let vmcs = AutoVmcs {
        vm_exit_reason: 0x7fff_001e,
        vm_exit_instruction_len: 2,
        exit_qualification: 0x402_0000,
        guest_rip: 0x1000,
        ..vmcs()
    };
    let info = ExitInfo::from(&vmcs);
    assert_eq!(
        info,
        ExitInfo {
            entry_failure: false,
            exit_reason: ExitReason::IO_INSTRUCTION,
            exit_instruction_length: 2,
            exit_qualification: 0x402_0000,
            guest_rip: 0x1000,
        }
    );
}

#[test]
fn exit_info_tells_a_failed_entry() {
    let vmcs = AutoVmcs { vm_exit_reason: 0x8000_0021, ..vmcs() };
    let info = ExitInfo::from(&vmcs);
    assert!(info.entry_failure);
    assert_eq!(info.exit_reason, ExitReason::INVALID_GUEST_STATE);
}

#[test]
fn next_rip_skips_the_instruction_and_nothing_else() {
    let before = AutoVmcs { vm_exit_reason: 10, vm_exit_instruction_len: 2, guest_rip: 0x7fff, ..vmcs() };
    let info = ExitInfo::from(&before);
    let mut after = AutoVmcs { guest_cs_base: 9, ..before };
    info.next_rip(&mut after);
    assert_eq!(after, AutoVmcs { guest_rip: 0x8001, guest_cs_base: 9, ..before });
}

#[test]
fn reasons_are_known_by_their_numbers() {
    assert_eq!(ExitReason::from_code(1), Some(ExitReason::EXTERNAL_INTERRUPT));
    assert_eq!(ExitReason::from_code(7), Some(ExitReason::INTERRUPT_WINDOW));
    assert_eq!(ExitReason::from_code(10), Some(ExitReason::CPUID));
    assert_eq!(ExitReason::from_code(18), Some(ExitReason::VMCALL));
    assert_eq!(ExitReason::from_code(30), Some(ExitReason::IO_INSTRUCTION));
    assert_eq!(ExitReason::from_code(48), Some(ExitReason::EPT_VIOLATION));
    assert_eq!(ExitReason::from_code(64), Some(ExitReason::XRSTORS));
    assert_eq!(ExitReason::from_code(35), None);
    assert_eq!(ExitReason::from_code(65), None);
}

#[test]
fn interruption_info_is_decoded() {
    let info = ExitInterruptionInfo::from(&AutoVmcs { vm_exit_intr_info: 0x8000_0320, ..vmcs() });
    assert_eq!(info, ExitInterruptionInfo { vector: 0x20, interruption_type: 3, valid: true });
    let info = ExitInterruptionInfo::from(&AutoVmcs { vm_exit_intr_info: 0x7fff_f8ff, ..vmcs() });
    assert_eq!(info, ExitInterruptionInfo { vector: 0xff, interruption_type: 0, valid: false });
}

#[test]
fn ept_violation_info_is_decoded() {
    assert_eq!(
        EptViolationInfo::from(0x181),
        EptViolationInfo { read: true, write: false, instruction: false }
    );
    assert_eq!(
        EptViolationInfo::from(0x6),
        EptViolationInfo { read: false, write: true, instruction: true }
    );
}

#[test]
fn io_info_decodes_a_write() {
    assert_eq!(
        IoInfo::from(0x03f8_0000),
        IoInfo { access_size: 1, input: false, string: false, repeat: false, port: 0x3f8 }
    );
}

#[test]
fn io_info_decodes_a_repeated_string_read() {
    assert_eq!(
        IoInfo::from(0x01f0_003b),
        IoInfo { access_size: 4, input: true, string: true, repeat: true, port: 0x1f0 }
    );
}

#[test]
fn io_info_ignores_the_bits_past_the_port() {
    assert_eq!(
        IoInfo::from(0x5_ffff_ffc7),
        IoInfo { access_size: 8, input: false, string: false, repeat: false, port: 0xffff }
    );
}
