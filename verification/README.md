# rvm

VM exit handling for a hypervisor on x86 processors with VMX, written and proved in Verus.

When a guest leaves VMX non-root operation, `vmexit::vmexit_handler` completes the exit inside the
hypervisor, forwards it to userspace as a packet, or reports an error. What it asks of the emulated
devices waits in `vcpu::InterruptState` and has to be carried out before the guest goes on.
`vmexit::try_vmexit_handler` takes any exit, and returns nothing where it cannot be handled.

- `src/` is the verified library.
  - `vmexit` dispatches an exit; `vmexit::info` decodes what the processor reports,
    `vmexit::cpuid` emulates `CPUID`, `vmexit::io` the I/O instructions, and `vmexit::mmio` handles
    violations of the extended page tables. `vmexit::laws` states what holds of all exits.
  - `vmcs`, `vcpu`, `packet`, `trap_map` and `memory` are the data that the handlers work on.
  - `feature` names the leaves and feature bits of `CPUID` and asks the host, `bits` reads and
    writes bit fields, `structs` and `consts` hold the numbers of the platform.
- `tests/` runs the library on concrete exits.
- `app/` connects the library to the hardware: it loads and stores the VMCS, serves the emulated
  devices, and binds the functions that the host supplies.

The processor's answer to `CPUID`, the traps behind a lock and the guest's memory can differ from
call to call. The functions that ask for them state what holds of every answer, and which question
was asked; the functions that take an answer as an argument state the result exactly.
