use rvm::error::{RvmError, RvmResult};
use rvm::memory::GuestPhysMemorySetTrait;
use rvm::packet::{IoPacket, MmioPacket, RvmExitPacket, RvmExitPacketInner};
use rvm::trap_map::{find_trap, Trap, TrapKind, TrapMap};
use rvm::vcpu::{DeviceRequest, GuestState, InterruptState};
use rvm::vmcs::AutoVmcs;
use rvm::vmexit::info::{ExitInfo, IoInfo};
use rvm::vmexit::io::handle_trapped_io;
use rvm::vmexit::mmio::{default_operand_size, finish_mmio, finish_page_fault, handle_trapped_mmio};
use rvm::vmexit::{
    can_handle_exit, handle_external_interrupt, handle_interrupt_window, handle_vmcall,
    read_exit_instruction, reads_timer, try_vmexit_handler, vmexit_handler,
    vmexit_handler_with_report, ExitReport, ExitResult,
};
use spin::Mutex;
use std::sync::Arc;

/// Memory whose byte at an address is the low byte of the address, and which records its calls.
struct Memory {
    readable: bool,
    fault: RvmResult<()>,
    faults: Mutex<Vec<usize>>,
    reads: Mutex<Vec<(usize, usize)>>,
}

impl Memory {
    fn new(readable: bool, fault: RvmResult<()>) -> Arc<Memory> {
        Arc::new(Memory {
            readable,
            fault,
            faults: Mutex::new(Vec::new()),
            reads: Mutex::new(Vec::new()),
        })
    }
}

impl GuestPhysMemorySetTrait for Memory {
    fn read_memory(&self, gpaddr: usize, buf: &mut [u8]) -> RvmResult<usize> {
        self.reads.lock().push((gpaddr, buf.len()));
        if !self.readable {
            return Err(RvmError::OutOfRange);
        }
        for (i, byte) in buf.iter_mut().enumerate() {
            *byte = (gpaddr + i) as u8;
        }
        Ok(buf.len())
    }

    fn handle_page_fault(&self, gpaddr: usize) -> RvmResult<()> {
        self.faults.lock().push(gpaddr);
        self.fault
    }
}

fn memory() -> Arc<Memory> {
    Memory::new(true, Ok(()))
}

fn vmcs() -> AutoVmcs {
    AutoVmcs {
        virtual_processor_id: 1,
        vm_exit_reason: 0,
        vm_exit_instruction_len: 3,
        vm_exit_intr_info: 0,
        cpu_based_vm_exec_control: 0xb5a0_61fe,
        secondary_vm_exec_control: 0,
        guest_cs_ar_bytes: 0,
        guest_ia32_efer: 0,
        guest_physical_address: 0,
        exit_qualification: 0,
        guest_rip: 0x1010,
        guest_cs_base: 0x100,
    }
}

fn guest() -> GuestState {
    GuestState {
        rax: 0x1122_3344_5566_7788,
        rcx: 1,
        rdx: 2,
        rbx: 3,
        rbp: 4,
        rsi: 5,
        rdi: 6,
        r8: 8,
        r9: 9,
        r10: 10,
        r11: 11,
        r12: 12,
        r13: 13,
        r14: 14,
        r15: 15,
        cr2: 16,
        xcr0: 3,
    }
}

fn traps() -> Mutex<TrapMap> {
    let mut map = TrapMap::new();
    map.push(Trap { kind: TrapKind::GuestTrapIo, addr: 0x3f8, size: 8, key: 71 });
    map.push(Trap { kind: TrapKind::GuestTrapMem, addr: 0xfee0_0000, size: 0x1000, key: 72 });
    map.push(Trap { kind: TrapKind::GuestTrapBell, addr: 0xd000_0000, size: 0x100, key: 73 });
    Mutex::new(map)
}

struct Outcome {
    vmcs: AutoVmcs,
    guest: GuestState,
    requests: Vec<DeviceRequest>,
    result: ExitResult,
    report: Option<ExitReport>,
}

/// Runs an exit through each of the handlers, which have to agree. The timer gives 0xa5.
fn run_on(memory: &Arc<Memory>, vmcs: AutoVmcs, guest: GuestState) -> Outcome {
    assert!(can_handle_exit(&vmcs, &guest, true));
    let gpm: Arc<dyn GuestPhysMemorySetTrait> = memory.clone();
    let traps = traps();

    let (mut v, mut g, mut i) = (vmcs, guest, InterruptState::new(0xa5));
    let (result, report) = vmexit_handler_with_report(&mut v, &mut g, &mut i, &gpm, &traps);
    let out = Outcome { vmcs: v, guest: g, requests: i.requests, result, report };

    let (mut v, mut g, mut i) = (vmcs, guest, InterruptState::new(0xa5));
    assert_eq!(vmexit_handler(&mut v, &mut g, &mut i, &gpm, &traps), out.result);
    assert_eq!((v, g, i.requests), (out.vmcs, out.guest, out.requests.clone()));

    let (mut v, mut g, mut i) = (vmcs, guest, InterruptState::new(0xa5));
    let tried = try_vmexit_handler(&mut v, &mut g, &mut i, &gpm, &traps);
    assert_eq!(tried, Some((out.result, out.report.clone())));
    assert_eq!((v, g, i.requests), (out.vmcs, out.guest, out.requests.clone()));
    out
}

fn run(vmcs: AutoVmcs) -> Outcome {
    run_on(&memory(), vmcs, guest())
}

fn moved(vmcs: AutoVmcs) -> AutoVmcs {
    AutoVmcs { guest_rip: vmcs.guest_rip + vmcs.vm_exit_instruction_len as usize, ..vmcs }
}

fn interrupt(vector: u32) -> AutoVmcs {
    AutoVmcs { vm_exit_reason: 1, vm_exit_intr_info: 0x8000_0000 | vector, ..vmcs() }
}

#[test]
fn host_timer_drives_the_guest_timer() {
    let before = interrupt(32);
    let out = run(before);
    assert_eq!(out.result, Ok(None));
    assert_eq!(out.requests, vec![DeviceRequest::TimerIrq]);
    assert_eq!((out.vmcs, out.guest), (before, guest()));
}

#[test]
fn serial_port_interrupt_is_passed_on() {
    let out = run(interrupt(36));
    assert_eq!(out.result, Ok(None));
    assert_eq!(out.requests, vec![DeviceRequest::VirtualInterrupt { vector: 36 }]);
}

#[test]
fn other_interrupts_stay_with_the_host() {
    for vector in [33, 35, 37, 255] {
        let out = run(interrupt(vector));
        assert_eq!(out.result, Ok(None));
        assert!(out.requests.is_empty());
    }
}

#[test]
fn requests_that_wait_are_kept() {
    let mut interrupts = InterruptState::new(7);
    interrupts.request(DeviceRequest::TimerWrite { value: 1 });
    assert_eq!(handle_external_interrupt(&interrupt(32), &mut interrupts), Ok(None));
    assert_eq!(
        interrupts.requests,
        vec![DeviceRequest::TimerWrite { value: 1 }, DeviceRequest::TimerIrq]
    );
    assert_eq!(interrupts.timer.data, 7);
}

#[test]
fn interrupt_window_is_closed() {
    let before = AutoVmcs { vm_exit_reason: 7, ..vmcs() };
    let out = run(before);
    assert_eq!(out.result, Ok(None));
    assert_eq!(out.vmcs, AutoVmcs { cpu_based_vm_exec_control: 0xb5a0_61fa, ..before });
    assert_eq!(out.guest, guest());
    let mut again = out.vmcs;
    assert_eq!(handle_interrupt_window(&mut again), Ok(None));
    assert_eq!(again, out.vmcs);
    again.interrupt_window_exiting(true);
    assert_eq!(again, before);
}

#[test]
fn hypercall_returns_zero() {
    let before = AutoVmcs { vm_exit_reason: 18, ..vmcs() };
    let out = run(before);
    assert_eq!(out.result, Ok(None));
    assert_eq!(out.vmcs, moved(before));
    assert_eq!(out.guest, GuestState { rax: 0, ..guest() });
    assert!(out.requests.is_empty());
    let (mut v, mut g) = (before, guest());
    assert_eq!(handle_vmcall(&ExitInfo::from(&before), &mut v, &mut g), Ok(None));
    assert_eq!((v, g), (out.vmcs, out.guest));
}

#[test]
fn cpuid_exit_reaches_the_emulation() {
    let before = AutoVmcs { vm_exit_reason: 10, vm_exit_instruction_len: 2, ..vmcs() };
    let state = GuestState { rax: 0x4000_0000, ..guest() };
    let out = run_on(&memory(), before, state);
    assert_eq!(out.result, Ok(None));
    assert_eq!(out.vmcs, moved(before));
    assert_eq!(
        out.guest,
        GuestState { rax: 0x4000_0001, rbx: 0x4b4d_564b, rcx: 0x564b_4d56, rdx: 0x4d, ..state }
    );
}

#[test]
fn reasons_without_a_handler_are_not_supported() {
    for reason in [0, 2, 12, 28, 31, 49, 64] {
        let before = AutoVmcs { vm_exit_reason: reason, ..vmcs() };
        let out = run(before);
        assert_eq!(out.result, Err(RvmError::NotSupported));
        assert_eq!((out.vmcs, out.guest), (before, guest()));
        assert!(out.requests.is_empty());
    }
}

#[test]
fn exits_that_cannot_be_handled() {
    let g = guest();
    let end = AutoVmcs { guest_rip: usize::MAX - 2, ..vmcs() };
    assert!(!can_handle_exit(&AutoVmcs { vm_exit_reason: 35, ..vmcs() }, &g, true));
    assert!(!can_handle_exit(&AutoVmcs { vm_exit_reason: 70, ..vmcs() }, &g, true));
    assert!(!can_handle_exit(&interrupt(31), &g, true));
    assert!(!can_handle_exit(&interrupt(0x120), &g, true));
    assert!(!can_handle_exit(&AutoVmcs { vm_exit_reason: 1, vm_exit_intr_info: 32, ..vmcs() }, &g, true));
    assert!(!can_handle_exit(&AutoVmcs { vm_exit_reason: 18, ..end }, &g, true));
    assert!(can_handle_exit(&AutoVmcs { vm_exit_reason: 18, vm_exit_instruction_len: 2, ..end }, &g, true));
    assert!(!can_handle_exit(&AutoVmcs { vm_exit_reason: 10, ..vmcs() }, &GuestState { rax: 2, ..g }, true));
    assert!(!can_handle_exit(&AutoVmcs { vm_exit_reason: 30, exit_qualification: 0x03f8_0004, ..vmcs() }, &g, true));
    assert!(can_handle_exit(&AutoVmcs { vm_exit_reason: 30, exit_qualification: 0x0040_0004, ..vmcs() }, &g, true));
    assert!(!can_handle_exit(&AutoVmcs { vm_exit_reason: 48, ..end }, &g, true));
    assert!(can_handle_exit(&AutoVmcs { vm_exit_reason: 48, vm_exit_instruction_len: 16, ..end }, &g, true));
    assert!(can_handle_exit(&AutoVmcs { vm_exit_reason: 12, ..end }, &g, true));
}

/// Tries an exit that cannot be handled if it hits a trap; a refusal has to leave all as it was.
fn attempt(memory: &Arc<Memory>, vmcs: AutoVmcs) -> Option<Outcome> {
    assert!(!can_handle_exit(&vmcs, &guest(), true));
    let gpm: Arc<dyn GuestPhysMemorySetTrait> = memory.clone();
    let (mut v, mut g, mut i) = (vmcs, guest(), InterruptState::new(0));
    let tried = try_vmexit_handler(&mut v, &mut g, &mut i, &gpm, &traps());
    if tried.is_none() {
        assert_eq!((v, g), (vmcs, guest()));
        assert!(i.requests.is_empty());
        assert!(memory.reads.lock().is_empty() && memory.faults.lock().is_empty());
    }
    tried.map(|(result, report)| Outcome { vmcs: v, guest: g, requests: i.requests, result, report })
}

#[test]
fn exits_that_cannot_be_handled_change_nothing() {
    let end = AutoVmcs { guest_rip: usize::MAX - 2, ..vmcs() };
    let memory = memory();
    assert!(attempt(&memory, AutoVmcs { vm_exit_reason: 35, ..vmcs() }).is_none());
    assert!(attempt(&memory, interrupt(31)).is_none());
    assert!(attempt(&memory, AutoVmcs { vm_exit_reason: 18, ..end }).is_none());
    assert!(attempt(&memory, io(0x03f8_0004)).is_none());
    assert!(attempt(&memory, AutoVmcs { guest_rip: usize::MAX - 2, ..ept(0xfee0_0000) }).is_none());
}

#[test]
fn wide_write_to_an_untrapped_port_is_ignored() {
    for size in [4usize, 5, 6, 7] {
        let before = io(0x0080_0000 | size);
        assert!(can_handle_exit(&before, &guest(), false));
        let out = attempt(&memory(), before).unwrap();
        assert_eq!(out.result, Ok(None));
        assert_eq!((out.vmcs, out.guest), (moved(before), guest()));
        assert!(out.requests.is_empty());

        let gpm: Arc<dyn GuestPhysMemorySetTrait> = memory();
        let (mut v, mut g, mut i) = (before, guest(), InterruptState::new(0));
        let untrapped = Mutex::new(TrapMap::new());
        assert_eq!(vmexit_handler(&mut v, &mut g, &mut i, &gpm, &untrapped), Ok(None));
        assert_eq!((v, g), (moved(before), guest()));
    }
}

#[test]
fn page_fault_at_the_end_of_the_address_space() {
    let before = AutoVmcs { guest_rip: usize::MAX - 2, guest_cs_base: 0, ..ept(0x5000) };
    assert!(can_handle_exit(&before, &guest(), false));
    let resolved = memory();
    let out = attempt(&resolved, before).unwrap();
    assert_eq!((out.result, out.report), (Ok(None), None));
    assert_eq!(out.vmcs, before);
    assert_eq!(*resolved.faults.lock(), vec![0x5000]);
    let unresolved = Memory::new(false, Err(RvmError::NoMemory));
    let out = attempt(&unresolved, before).unwrap();
    assert_eq!(out.result, Err(RvmError::NoMemory));
    assert_eq!(out.report, Some(Err(RvmError::OutOfRange)));
    assert_eq!(*unresolved.reads.lock(), vec![(usize::MAX - 2, 3)]);
}

fn io(qualification: usize) -> AutoVmcs {
    AutoVmcs { vm_exit_reason: 30, vm_exit_instruction_len: 1, exit_qualification: qualification, ..vmcs() }
}

#[test]
fn debug_port_takes_characters() {
    let before = io(0x0402_0000);
    let out = run(before);
    assert_eq!(out.result, Ok(None));
    assert_eq!(out.requests, vec![DeviceRequest::DebugOutput { value: 0x88 }]);
    assert_eq!((out.vmcs, out.guest), (moved(before), guest()));
    let out = run(io(0x0402_0008));
    assert_eq!(out.result, Ok(None));
    assert!(out.requests.is_empty());
    assert_eq!(out.guest, guest());
}

#[test]
fn interval_timer_is_read_and_written() {
    let out = run(io(0x0040_0000));
    assert_eq!(out.result, Ok(None));
    assert_eq!(out.requests, vec![DeviceRequest::TimerWrite { value: 0x88 }]);
    assert_eq!(out.guest, guest());
    let before = io(0x0040_0008);
    let out = run(before);
    assert_eq!(out.result, Ok(None));
    assert!(out.requests.is_empty());
    assert_eq!((out.vmcs, out.guest), (moved(before), GuestState { rax: 0xa5, ..guest() }));
}

#[test]
fn timer_reads_are_told_apart() {
    assert!(reads_timer(&io(0x0040_0008)));
    assert!(reads_timer(&io(0x0040_000b)));
    assert!(!reads_timer(&io(0x0040_0000)));
    assert!(!reads_timer(&io(0x0041_0008)));
    assert!(!reads_timer(&AutoVmcs { vm_exit_reason: 48, ..io(0x0040_0008) }));
}

fn io_packet(r: ExitResult) -> (u64, IoPacket) {
    match r {
        Ok(Some(RvmExitPacket { key, inner: RvmExitPacketInner::Io(packet) })) => (key, packet),
        _ => panic!("no I/O packet"),
    }
}

#[test]
fn trapped_write_is_forwarded() {
    let before = io(0x03f9_0001);
    let out = run(before);
    let (key, packet) = io_packet(out.result);
    assert_eq!(key, 71);
    assert_eq!(
        packet,
        IoPacket {
            port: 0x3f9,
            access_size: 2,
            input: false,
            string: false,
            repeat: false,
            data: [0x88, 0x77, 0, 0],
        }
    );
    assert_eq!((out.vmcs, out.guest), (moved(before), guest()));
    assert!(out.requests.is_empty());
    let (_, packet) = io_packet(run(io(0x03f8_0033)).result);
    assert_eq!(packet.data, 0x5566_7788u32.to_le_bytes());
    assert!(packet.string && packet.repeat);
}

#[test]
fn trapped_read_is_forwarded() {
    let out = run(io(0x03f8_0008));
    let (key, packet) = io_packet(out.result);
    assert_eq!((key, packet.input, packet.data), (71, true, [0; 4]));
    assert_eq!(out.guest, guest());
    let out = run(io(0x03f8_000b));
    assert_eq!(io_packet(out.result).1.access_size, 4);
    assert_eq!(out.guest, GuestState { rax: 0, ..guest() });
}

#[test]
fn access_to_another_port_is_ignored() {
    for port in [0x3f7usize, 0x400, 0x41, 0xffff] {
        let before = io(port << 16);
        let out = run(before);
        assert_eq!(out.result, Ok(None));
        assert_eq!((out.vmcs, out.guest), (moved(before), guest()));
    }
}

#[test]
fn trapped_io_on_any_trap() {
    let info = IoInfo { access_size: 1, input: false, string: false, repeat: false, port: 9 };
    let mut g = guest();
    assert_eq!(handle_trapped_io(&info, &mut g, None), Ok(None));
    let trap = Trap { kind: TrapKind::GuestTrapMem, addr: 0, size: 0, key: 5 };
    let (key, packet) = io_packet(handle_trapped_io(&info, &mut g, Some(trap)));
    assert_eq!((key, packet.data), (5, [0x88, 0, 0, 0]));
    assert_eq!(g, guest());
}

fn ept(guest_paddr: u64) -> AutoVmcs {
    AutoVmcs { vm_exit_reason: 48, guest_physical_address: guest_paddr, ..vmcs() }
}

#[test]
fn trapped_memory_access_is_forwarded() {
    let before = AutoVmcs { guest_ia32_efer: 0x500, guest_cs_ar_bytes: 0xa09b, ..ept(0xfee0_0020) };
    let memory = memory();
    let out = run_on(&memory, before, guest());
    let mut inst_buf = [0u8; 15];
    inst_buf[..3].copy_from_slice(&[0x10, 0x11, 0x12]);
    assert_eq!(
        out.result,
        Ok(Some(RvmExitPacket {
            key: 72,
            inner: RvmExitPacketInner::Mmio(MmioPacket {
                addr: 0xfee0_0020,
                inst_len: 3,
                default_operand_size: 4,
                inst_buf,
            }),
        }))
    );
    assert_eq!((out.vmcs, out.guest), (moved(before), guest()));
    assert!(memory.faults.lock().is_empty());
}

#[test]
fn unreadable_instruction_is_an_error() {
    let memory = Memory::new(false, Ok(()));
    let before = ept(0xfee0_0000);
    let out = run_on(&memory, before, guest());
    assert_eq!(out.result, Err(RvmError::OutOfRange));
    assert_eq!(out.vmcs, moved(before));
}

#[test]
fn bell_is_not_supported() {
    let before = ept(0xd000_00ff);
    let out = run(before);
    assert_eq!(out.result, Err(RvmError::NotSupported));
    assert_eq!(out.vmcs, moved(before));
}

#[test]
fn memory_access_to_a_port_trap_is_a_bad_state() {
    let before = ept(0);
    let mut after = before;
    let trap = Trap { kind: TrapKind::GuestTrapIo, addr: 0, size: 1, key: 5 };
    let r = handle_trapped_mmio(&ExitInfo::from(&before), &mut after, 0, &trap);
    assert_eq!(r, Err(RvmError::BadState));
    assert_eq!(after, moved(before));
}

#[test]
fn too_long_instruction_is_an_internal_error() {
    let before = AutoVmcs { vm_exit_instruction_len: 16, ..ept(0xfee0_0000) };
    let out = run(before);
    assert_eq!(out.result, Err(RvmError::Internal));
    assert_eq!(out.vmcs, before);
}

#[test]
fn longest_instruction_is_forwarded_whole() {
    let out = run(AutoVmcs { vm_exit_instruction_len: 15, ..ept(0xfee0_0fff) });
    match out.result {
        Ok(Some(RvmExitPacket { inner: RvmExitPacketInner::Mmio(packet), .. })) => {
            assert_eq!(packet.inst_len, 15);
            assert_eq!(packet.inst_buf[14], 0x1e);
            assert_eq!(packet.default_operand_size, 2);
        }
        _ => panic!("no MMIO packet"),
    }
}

#[test]
fn other_violations_are_page_faults() {
    for address in [0u64, 0xfedf_ffff, 0xfee0_1000, 0x3f8] {
        let memory = memory();
        let before = ept(address);
        let out = run_on(&memory, before, guest());
        assert_eq!(out.result, Ok(None));
        assert_eq!((out.vmcs, out.guest), (before, guest()));
        assert_eq!(*memory.faults.lock(), vec![address as usize; 3]);
    }
}

#[test]
fn unresolved_page_fault_is_an_error() {
    let memory = Memory::new(true, Err(RvmError::NotFound));
    let before = ept(0x5000);
    let out = run_on(&memory, before, guest());
    assert_eq!(out.result, Err(RvmError::NotFound));
    assert_eq!(out.vmcs, before);
    assert_eq!(finish_page_fault(Err(RvmError::NoMemory)), Err(RvmError::NoMemory));
    assert_eq!(finish_page_fault(Ok(())), Ok(None));
}

#[test]
fn operand_size_follows_the_mode() {
    let size = |efer: u64, rights: u32| {
        default_operand_size(&AutoVmcs { guest_ia32_efer: efer, guest_cs_ar_bytes: rights, ..vmcs() })
    };
    assert_eq!(size(0x400, 0x2000), 4);
    assert_eq!(size(0x400, 0), 2);
    assert_eq!(size(0xffff_ffff_ffff_fbff, 0x2000), 2);
    assert_eq!(size(0, 0x4000), 4);
    assert_eq!(size(0, 0x9fff), 2);
}

#[test]
fn packet_is_completed_with_the_instruction() {
    let blank = MmioPacket { addr: 1, inst_len: 2, default_operand_size: 4, inst_buf: [0; 15] };
    assert_eq!(finish_mmio(9, blank, Err(RvmError::NoMemory), &[1, 2]), Err(RvmError::NoMemory));
    match finish_mmio(9, blank, Ok(0), &[1, 2]) {
        Ok(Some(RvmExitPacket { key: 9, inner: RvmExitPacketInner::Mmio(packet) })) => {
            assert_eq!(packet.inst_buf, [1, 2, 0, 0, 0, 0, 0, 0, 0, 0, 0, 0, 0, 0, 0]);
        }
        _ => panic!("no MMIO packet"),
    }
}

#[test]
fn instruction_of_a_failed_exit_is_read_from_the_code_segment() {
    let gpm: Arc<dyn GuestPhysMemorySetTrait> = memory();
    let before = AutoVmcs { vm_exit_reason: 12, ..vmcs() };
    let info = ExitInfo::from(&before);
    assert_eq!(read_exit_instruction(&info, &moved(before), &gpm), Ok(vec![0x10, 0x11, 0x12]));
    let gpm: Arc<dyn GuestPhysMemorySetTrait> = Memory::new(false, Ok(()));
    assert_eq!(read_exit_instruction(&info, &before, &gpm), Err(RvmError::OutOfRange));
}

#[test]
fn failed_exit_is_read_at_the_rip_of_the_exit() {
    // The bell moves the guest before it fails.
    let memory = memory();
    let out = run_on(&memory, ept(0xd000_0000), guest());
    assert_eq!(out.vmcs.guest_rip, 0x1013);
    assert_eq!(out.report, Some(Ok(vec![0x10, 0x11, 0x12])));
    assert_eq!(*memory.reads.lock(), vec![(0x1110, 3); 3]);
    let unreadable = Memory::new(false, Ok(()));
    let out = run_on(&unreadable, AutoVmcs { vm_exit_reason: 12, ..vmcs() }, guest());
    assert_eq!(out.result, Err(RvmError::NotSupported));
    assert_eq!(out.report, Some(Err(RvmError::OutOfRange)));
}

#[test]
fn failed_exit_past_the_end_of_the_address_space_is_not_read() {
    let memory = memory();
    let before = AutoVmcs { vm_exit_reason: 12, guest_cs_base: usize::MAX, ..vmcs() };
    let out = run_on(&memory, before, guest());
    assert_eq!((out.result, out.report), (Err(RvmError::NotSupported), None));
    assert!(memory.reads.lock().is_empty());
}

#[test]
fn completed_exits_are_not_read() {
    for before in [interrupt(32), AutoVmcs { vm_exit_reason: 18, ..vmcs() }, io(0x0080_0000), ept(0)] {
        let memory = memory();
        assert_eq!(run_on(&memory, before, guest()).report, None);
        assert!(memory.reads.lock().is_empty());
    }
}

#[test]
fn traps_are_searched_oldest_first() {
    let old = Trap { kind: TrapKind::GuestTrapMem, addr: 0x1000, size: 0x1000, key: 1 };
    let new = Trap { kind: TrapKind::GuestTrapBell, addr: 0x1800, size: 0x1000, key: 2 };
    let top = Trap { kind: TrapKind::GuestTrapIo, addr: usize::MAX, size: 2, key: 3 };
    let mut map = TrapMap::new();
    assert_eq!(map.find(TrapKind::GuestTrapMem, 0x1000), None);
    map.push(old);
    map.push(new);
    map.push(top);
    assert_eq!(map.find(TrapKind::GuestTrapMem, 0x0fff), None);
    assert_eq!(map.find(TrapKind::GuestTrapMem, 0x1000), Some(old));
    assert_eq!(map.find(TrapKind::GuestTrapBell, 0x1fff), Some(old));
    assert_eq!(map.find(TrapKind::GuestTrapMem, 0x2000), Some(new));
    assert_eq!(map.find(TrapKind::GuestTrapMem, 0x2800), None);
    assert_eq!(map.find(TrapKind::GuestTrapIo, 0x1000), None);
    assert_eq!(map.find(TrapKind::GuestTrapIo, usize::MAX), Some(top));
    let map = Mutex::new(map);
    assert_eq!(find_trap(&map, TrapKind::GuestTrapMem, 0x2000), Some(new));
    map.lock().push(Trap { kind: TrapKind::GuestTrapIo, addr: 0, size: 1, key: 4 });
    assert_eq!(find_trap(&map, TrapKind::GuestTrapIo, 0).map(|t| t.key), Some(4));
}
