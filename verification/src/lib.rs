//! VM exit handling for a hypervisor on x86 processors with VMX.
//!
//! When a guest leaves VMX non-root operation, `vmexit::vmexit_handler` decides what becomes of the
//! exit: it is completed inside the hypervisor, it is forwarded to userspace as a packet, or it is
//! an error. The handler works on plain values: the fields of the VMCS that it reads and writes
//! (`vmcs::AutoVmcs`), the guest's registers (`vcpu::GuestState`) and the requests that it leaves
//! for the emulated devices (`vcpu::InterruptState`).

pub mod bits;
pub mod consts;
pub mod error;
pub mod feature;
pub mod memory;
pub mod packet;
pub mod structs;
pub mod trap_map;
pub mod vcpu;
pub mod vmcs;
pub mod vmexit;
