//! The fields of the virtual-machine control structure that exit handling works on.

use vstd::prelude::*;

verus! {

/// Bit 2 of the primary processor-based controls: exit as soon as the guest can take an interrupt.
pub const INTERRUPT_WINDOW_EXITING: u32 = 0x4;

/// Bit 12 of the secondary processor-based controls: the guest may execute `INVPCID`.
pub const K_PROCBASED_CTLS2_INVPCID: u32 = 0x1000;

/// The current values of the fields of a VMCS that exit handling reads or writes.
#[derive(Debug, Clone, Copy, PartialEq, Eq, Structural)]
pub struct AutoVmcs {
    /// `VIRTUAL_PROCESSOR_ID`
    pub virtual_processor_id: u16,
    /// `VM_EXIT_REASON`
    pub vm_exit_reason: u32,
    /// `VM_EXIT_INSTRUCTION_LEN`
    pub vm_exit_instruction_len: u32,
    /// `VM_EXIT_INTR_INFO`
    pub vm_exit_intr_info: u32,
    /// `CPU_BASED_VM_EXEC_CONTROL`
    pub cpu_based_vm_exec_control: u32,
    /// `SECONDARY_VM_EXEC_CONTROL`
    pub secondary_vm_exec_control: u32,
    /// `GUEST_CS_AR_BYTES`
    pub guest_cs_ar_bytes: u32,
    /// `GUEST_IA32_EFER`
    pub guest_ia32_efer: u64,
    /// `GUEST_PHYSICAL_ADDRESS`
    pub guest_physical_address: u64,
    /// `EXIT_QUALIFICATION`
    pub exit_qualification: usize,
    /// `GUEST_RIP`
    pub guest_rip: usize,
    /// `GUEST_CS_BASE`
    pub guest_cs_base: usize,
}

impl AutoVmcs {
    /// Whether the processor exits as soon as the guest can take an interrupt.
    pub open spec fn exits_on_interrupt_window(&self) -> bool {
        self.cpu_based_vm_exec_control & INTERRUPT_WINDOW_EXITING != 0
    }

    /// This VMCS with interrupt-window exiting switched on or off.
    pub open spec fn with_interrupt_window_exiting(self, enable: bool) -> AutoVmcs {
        AutoVmcs {
            cpu_based_vm_exec_control: if enable {
                self.cpu_based_vm_exec_control | INTERRUPT_WINDOW_EXITING
            } else {
                self.cpu_based_vm_exec_control & !INTERRUPT_WINDOW_EXITING
            },
            ..self
        }
    }

    /// This VMCS with another guest instruction pointer.
    pub open spec fn with_rip(self, rip: int) -> AutoVmcs {
        AutoVmcs { guest_rip: rip as usize, ..self }
    }

    /// Switches interrupt-window exiting on or off.
    pub fn interrupt_window_exiting(&mut self, enable: bool)
        ensures
            *final(self) == old(self).with_interrupt_window_exiting(enable),
            final(self).exits_on_interrupt_window() == enable,
            (final(self).cpu_based_vm_exec_control & 0x4 != 0) == enable,
            final(self).cpu_based_vm_exec_control & !0x4u32 == old(self).cpu_based_vm_exec_control
                & !0x4u32,
            *final(self) == (AutoVmcs {
                cpu_based_vm_exec_control: final(self).cpu_based_vm_exec_control,
                ..*old(self)
            }),
    {
        let controls: u32 = self.cpu_based_vm_exec_control;
        proof {
            assert((controls | 0x4u32) & 0x4u32 != 0 && (controls | 0x4u32) & !0x4u32 == controls
                & !0x4u32) by (bit_vector);
            assert((controls & !0x4u32) & 0x4u32 == 0 && (controls & !0x4u32) & !0x4u32 == controls
                & !0x4u32) by (bit_vector);
        }
        self.cpu_based_vm_exec_control = if enable {
            controls | INTERRUPT_WINDOW_EXITING
        } else {
            controls & !INTERRUPT_WINDOW_EXITING
        };
    }
}

/// The access-rights field of a guest segment register.
#[derive(Debug, Clone, Copy, PartialEq, Eq, Structural)]
pub struct GuestRegisterAccessRights {
    pub bits: u32,
}

impl GuestRegisterAccessRights {
    /// Bit 13: the segment is a 64-bit code segment.
    pub const LONG_MODE: u32 = 0x2000;

    /// Bit 14: operands of the segment are 32 bits wide by default.
    pub const DB: u32 = 0x4000;

    /// Whether all the flags of `flags` are set.
    pub fn contains(&self, flags: u32) -> (r: bool)
        ensures
            r == (self.bits & flags == flags),
    {
        self.bits & flags == flags
    }
}

} // verus!
