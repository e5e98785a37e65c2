//! What the processor reports about an exit.

use crate::bits::{bit, bits, get_bit, get_bits};
use crate::structs::ExitReason;
use crate::vmcs::AutoVmcs;
use vstd::prelude::*;

verus! {

/// The basic exit reason: the low half of `VM_EXIT_REASON`.
pub open spec fn basic_reason(vmcs: AutoVmcs) -> u32 {
    vmcs.vm_exit_reason & 0xffff
}

/// Why and where the guest left.
#[derive(Debug, Clone, Copy, PartialEq, Eq, Structural)]
pub struct ExitInfo {
    pub entry_failure: bool,
    pub exit_reason: ExitReason,
    pub exit_instruction_length: u32,
    pub exit_qualification: usize,
    pub guest_rip: usize,
}

impl ExitInfo {
    /// What `vmcs` says about the last exit.
    pub open spec fn decoded(vmcs: AutoVmcs) -> Self {
        Self {
            entry_failure: vmcs.vm_exit_reason & 0x8000_0000 != 0,
            exit_reason: ExitReason::with_code(basic_reason(vmcs)),
            exit_instruction_length: vmcs.vm_exit_instruction_len,
            exit_qualification: vmcs.exit_qualification,
            guest_rip: vmcs.guest_rip,
        }
    }

    /// The address of the instruction behind the one that caused the exit.
    pub open spec fn following_rip(self) -> int {
        self.guest_rip + self.exit_instruction_length
    }

    /// Reads what the processor reports about the last exit.
    pub fn from(vmcs: &AutoVmcs) -> (r: Self)
        requires
            ExitReason::known(basic_reason(*vmcs)),
        ensures
            r == Self::decoded(*vmcs),
            r.exit_reason.code() == basic_reason(*vmcs),
            r.exit_reason.code() == vmcs.vm_exit_reason & 0xffff,
            r.entry_failure == (vmcs.vm_exit_reason & 0x8000_0000 != 0),
            r.exit_instruction_length == vmcs.vm_exit_instruction_len,
            r.exit_qualification == vmcs.exit_qualification,
            r.guest_rip == vmcs.guest_rip,
    {
        let full_reason: u32 = vmcs.vm_exit_reason;
        let code: u64 = get_bits(full_reason as u64, 0, 16);
        let entry_failure: bool = get_bit(full_reason as u64, 31);
        proof {
            assert(bits(full_reason as u64, 0, 16) == full_reason & 0xffff) by (bit_vector);
            assert(full_reason & 0xffff <= 0xffff) by (bit_vector);
            assert(bit(full_reason as u64, 31) == (full_reason & 0x8000_0000 != 0)) by (bit_vector);
        }
        let reason: Option<ExitReason> = ExitReason::from_code(code as u32);
        Self {
            exit_reason: reason.unwrap(),
            entry_failure,
            exit_instruction_length: vmcs.vm_exit_instruction_len,
            exit_qualification: vmcs.exit_qualification,
            guest_rip: vmcs.guest_rip,
        }
    }

    /// Moves the guest behind the instruction that caused the exit.
    pub fn next_rip(&self, vmcs: &mut AutoVmcs)
        requires
            self.following_rip() <= usize::MAX,
        ensures
            *final(vmcs) == old(vmcs).with_rip(self.following_rip()),
            final(vmcs).guest_rip == self.guest_rip + self.exit_instruction_length,
            *final(vmcs) == (AutoVmcs { guest_rip: final(vmcs).guest_rip, ..*old(vmcs) }),
    {
        vmcs.guest_rip = self.guest_rip + self.exit_instruction_length as usize;
    }
}

/// The interrupt or exception that caused an exit.
#[derive(Debug, Clone, Copy, PartialEq, Eq, Structural)]
pub struct ExitInterruptionInfo {
    pub vector: u8,
    pub interruption_type: u8,
    pub valid: bool,
}

impl ExitInterruptionInfo {
    /// What `vmcs` says about the interruption.
    pub open spec fn decoded(vmcs: AutoVmcs) -> Self {
        Self {
            vector: (vmcs.vm_exit_intr_info & 0xff) as u8,
            interruption_type: ((vmcs.vm_exit_intr_info >> 8) & 0x7) as u8,
            valid: vmcs.vm_exit_intr_info & 0x8000_0000 != 0,
        }
    }

    /// Reads what the processor reports about the interruption.
    pub fn from(vmcs: &AutoVmcs) -> (r: Self)
        ensures
            r == Self::decoded(*vmcs),
            r.vector == vmcs.vm_exit_intr_info & 0xff,
            r.interruption_type == (vmcs.vm_exit_intr_info >> 8) & 0x7,
            r.valid == (vmcs.vm_exit_intr_info & 0x8000_0000 != 0),
    {
        let info: u32 = vmcs.vm_exit_intr_info;
        proof {
            assert(bits(info as u64, 0, 8) == info & 0xff) by (bit_vector);
            assert(info & 0xff <= 0xff) by (bit_vector);
            assert(bits(info as u64, 8, 11) == (info >> 8) & 0x7) by (bit_vector);
            assert((info >> 8) & 0x7 <= 0x7) by (bit_vector);
            assert(bit(info as u64, 31) == (info & 0x8000_0000 != 0)) by (bit_vector);
        }
        Self {
            vector: get_bits(info as u64, 0, 8) as u8,
            interruption_type: get_bits(info as u64, 8, 11) as u8,
            valid: get_bit(info as u64, 31),
        }
    }
}

/// The access that violated the extended page tables.
#[derive(Debug, Clone, Copy, PartialEq, Eq, Structural)]
pub struct EptViolationInfo {
    pub read: bool,
    pub write: bool,
    pub instruction: bool,
}

impl EptViolationInfo {
    /// Decodes the exit qualification of an EPT violation.
    pub fn from(qualification: usize) -> (r: Self)
        ensures
            r.read == (qualification & 0x1 != 0),
            r.write == (qualification & 0x2 != 0),
            r.instruction == (qualification & 0x4 != 0),
    {
        proof {
            assert(bit(qualification as u64, 0) == (qualification & 0x1 != 0)) by (bit_vector);
            assert(bit(qualification as u64, 1) == (qualification & 0x2 != 0)) by (bit_vector);
            assert(bit(qualification as u64, 2) == (qualification & 0x4 != 0)) by (bit_vector);
        }
        Self {
            read: get_bit(qualification as u64, 0),
            write: get_bit(qualification as u64, 1),
            instruction: get_bit(qualification as u64, 2),
        }
    }
}

/// The access to an I/O port that caused an exit.
#[derive(Debug, Clone, Copy, PartialEq, Eq, Structural)]
pub struct IoInfo {
    /// The width of the access in bytes.
    pub access_size: u8,
    pub input: bool,
    pub string: bool,
    pub repeat: bool,
    pub port: u16,
}

impl IoInfo {
    /// What the exit qualification says about the access.
    pub open spec fn decoded(qualification: usize) -> Self {
        Self {
            access_size: ((qualification & 0x7) + 1) as u8,
            input: qualification & 0x8 != 0,
            string: qualification & 0x10 != 0,
            repeat: qualification & 0x20 != 0,
            port: ((qualification >> 16) & 0xffff) as u16,
        }
    }

    /// Decodes the exit qualification of an I/O instruction.
    pub fn from(qualification: usize) -> (r: Self)
        ensures
            r == Self::decoded(qualification),
            r.access_size == (qualification & 0x7) + 1,
            1 <= r.access_size <= 8,
            r.input == (qualification & 0x8 != 0),
            r.string == (qualification & 0x10 != 0),
            r.repeat == (qualification & 0x20 != 0),
            r.port == (qualification >> 16) & 0xffff,
    {
        proof {
            assert(bits(qualification as u64, 0, 3) == qualification & 0x7) by (bit_vector);
            assert(qualification & 0x7 <= 0x7) by (bit_vector);
            assert(bit(qualification as u64, 3) == (qualification & 0x8 != 0)) by (bit_vector);
            assert(bit(qualification as u64, 4) == (qualification & 0x10 != 0)) by (bit_vector);
            assert(bit(qualification as u64, 5) == (qualification & 0x20 != 0)) by (bit_vector);
            assert(bits(qualification as u64, 16, 32) == (qualification >> 16) & 0xffff)
                by (bit_vector);
            assert((qualification >> 16) & 0xffff <= 0xffff) by (bit_vector);
        }
        Self {
            access_size: get_bits(qualification as u64, 0, 3) as u8 + 1,
            input: get_bit(qualification as u64, 3),
            string: get_bit(qualification as u64, 4),
            repeat: get_bit(qualification as u64, 5),
            port: get_bits(qualification as u64, 16, 32) as u16,
        }
    }
}

} // verus!
