//! The state of a virtual processor that exit handling reads and changes.

use vstd::prelude::*;

verus! {

/// The guest registers that the processor does not save in the VMCS.
#[derive(Debug, Clone, Copy, PartialEq, Eq, Structural)]
pub struct GuestState {
    pub rax: u64,
    pub rcx: u64,
    pub rdx: u64,
    pub rbx: u64,
    pub rbp: u64,
    pub rsi: u64,
    pub rdi: u64,
    pub r8: u64,
    pub r9: u64,
    pub r10: u64,
    pub r11: u64,
    pub r12: u64,
    pub r13: u64,
    pub r14: u64,
    pub r15: u64,
    pub cr2: u64,
    pub xcr0: u64,
}

impl GuestState {
    /// These registers with another value in `rax`.
    pub open spec fn with_rax(self, rax: u64) -> GuestState {
        GuestState { rax, ..self }
    }

    /// These registers with other values in the four that `CPUID` writes.
    pub open spec fn with_abcd(self, rax: u64, rbx: u64, rcx: u64, rdx: u64) -> GuestState {
        GuestState { rax, rbx, rcx, rdx, ..self }
    }
}

/// What exit handling asks of the emulated devices of the virtual processor.
#[derive(Debug, Clone, Copy, PartialEq, Eq, Structural)]
pub enum DeviceRequest {
    /// The host timer has ticked: advance the virtual timer.
    TimerIrq,
    /// Make an interrupt pending on the virtual interrupt controller.
    VirtualInterrupt { vector: usize },
    /// The guest writes a byte to the data port of the interval timer.
    TimerWrite { value: u8 },
    /// The guest writes a character to the debug port.
    DebugOutput { value: u8 },
}

/// The data port of the interval timer, as it stands at an exit.
#[derive(Debug, Clone, Copy, PartialEq, Eq, Structural)]
pub struct PitTimer {
    /// What the timer gives to a guest that reads the port.
    pub data: u8,
}

impl PitTimer {
    /// What the guest reads from the port.
    pub fn read(&self) -> (r: u8)
        ensures
            r == self.data,
    {
        self.data
    }
}

/// The emulated interrupt devices, as exit handling sees them.
#[derive(Debug)]
pub struct InterruptState {
    pub timer: PitTimer,
    /// What exit handling has asked of the devices, oldest first. It takes effect when the owner of
    /// the devices carries it out.
    pub requests: Vec<DeviceRequest>,
}

impl InterruptState {
    /// No request is waiting, and a guest that reads the timer is given `data`.
    pub fn new(data: u8) -> (r: Self)
        ensures
            r.timer.data == data,
            r.requests@ == Seq::<DeviceRequest>::empty(),
    {
        InterruptState { timer: PitTimer { data }, requests: Vec::new() }
    }

    /// Leaves one more request for the devices.
    pub fn request(&mut self, request: DeviceRequest)
        ensures
            final(self).requests@ == old(self).requests@.push(request),
            final(self).timer == old(self).timer,
    {
        self.requests.push(request);
    }
}

} // verus!
