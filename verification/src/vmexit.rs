//! VM exit handler

use crate::consts::{
    COM1_IRQ, IRQ0, PIT_CHANNEL0_PORT, QEMU_DEBUG_PORT, TIMER_IRQ, X86_MAX_INST_LEN,
};
use crate::error::{RvmError, RvmResult};
use crate::memory::GuestPhysMemorySetTrait;
use crate::packet::RvmExitPacket;
use crate::structs::ExitReason;
use crate::trap_map::{find_trap, may_hit, TrapKind, TrapMap};
use crate::vcpu::{DeviceRequest, GuestState, InterruptState, PitTimer};
use crate::vmcs::AutoVmcs;
use crate::vmexit::cpuid::{can_answer, handle_cpuid, is_answer, is_answered};
use crate::vmexit::info::{basic_reason, ExitInfo, ExitInterruptionInfo, IoInfo};
use crate::vmexit::io::{
    fits_packet, handle_io_instruction, handle_trapped_io, io_is_handled, is_internal_port,
    is_timer_access,
};
use crate::vmexit::mmio::{
    ept_violation_is_handled, finish_page_fault, handle_ept_violation, zeros,
};
use spin::Mutex;
use std::sync::Arc;
use vstd::prelude::*;

pub mod cpuid;
pub mod effects;
pub mod info;
pub mod io;
pub mod laws;
pub mod mmio;

verus! {

/// How the handling of an exit ends: with a packet to forward to the userspace handler, with
/// nothing left to do, or with an error.
pub type ExitResult = RvmResult<Option<RvmExitPacket>>;

/// Whether the interruption is an interrupt that the host's interrupt controller can have raised.
pub open spec fn is_external_interrupt(info: ExitInterruptionInfo) -> bool {
    info.valid && info.interruption_type == 0 && info.vector >= IRQ0
}

/// What an interrupt of the host asks of the guest's devices: the timer of the host drives that of
/// the guest, the serial port is passed on, and the guest learns of nothing else.
pub open spec fn interrupt_request(vector: u8) -> Seq<DeviceRequest> {
    if vector == IRQ0 + TIMER_IRQ {
        seq![DeviceRequest::TimerIrq]
    } else if vector == IRQ0 + COM1_IRQ {
        seq![DeviceRequest::VirtualInterrupt { vector: vector as usize }]
    } else {
        seq![]
    }
}

/// Handles an exit that an interrupt of the host caused.
pub fn handle_external_interrupt(
    vmcs: &AutoVmcs,
    interrupt_state: &mut InterruptState,
) -> (r: ExitResult)
    requires
        is_external_interrupt(ExitInterruptionInfo::decoded(*vmcs)),
    ensures
        r == ExitResult::Ok(None),
        final(interrupt_state).requests@ == old(interrupt_state).requests@ + interrupt_request(
            ExitInterruptionInfo::decoded(*vmcs).vector,
        ),
        final(interrupt_state).timer == old(interrupt_state).timer,
        vmcs.vm_exit_intr_info & 0xff == 32 ==> final(interrupt_state).requests@ == old(interrupt_state)
            .requests@.push(DeviceRequest::TimerIrq),
        vmcs.vm_exit_intr_info & 0xff == 36 ==> final(interrupt_state).requests@ == old(interrupt_state)
            .requests@.push(DeviceRequest::VirtualInterrupt { vector: 36 }),
        vmcs.vm_exit_intr_info & 0xff != 32 && vmcs.vm_exit_intr_info & 0xff != 36
            ==> final(interrupt_state).requests@ == old(interrupt_state).requests@,
{
    let info: ExitInterruptionInfo = ExitInterruptionInfo::from(vmcs);
    match info.vector - IRQ0 {
        TIMER_IRQ => interrupt_state.request(DeviceRequest::TimerIrq),
        COM1_IRQ => interrupt_state.request(
            DeviceRequest::VirtualInterrupt { vector: info.vector as usize },
        ),
        _ => {},
    };
    assert(interrupt_state.requests@ =~= old(interrupt_state).requests@ + interrupt_request(
        info.vector,
    ));
    Ok(None)
}

/// Handles an exit that happened because the guest can take an interrupt: from now on it need not
/// exit for that.
pub fn handle_interrupt_window(vmcs: &mut AutoVmcs) -> (r: ExitResult)
    ensures
        r == ExitResult::Ok(None),
        *final(vmcs) == old(vmcs).with_interrupt_window_exiting(false),
        final(vmcs).cpu_based_vm_exec_control & 0x4 == 0,
        final(vmcs).cpu_based_vm_exec_control & !0x4u32 == old(vmcs).cpu_based_vm_exec_control
            & !0x4u32,
        *final(vmcs) == (AutoVmcs {
            cpu_based_vm_exec_control: final(vmcs).cpu_based_vm_exec_control,
            ..*old(vmcs)
        }),
{
    vmcs.interrupt_window_exiting(false);
    Ok(None)
}

/// Handles a hypercall: there are none, so that the guest goes on with zero in `rax`.
pub fn handle_vmcall(
    exit_info: &ExitInfo,
    vmcs: &mut AutoVmcs,
    guest_state: &mut GuestState,
) -> (r: ExitResult)
    requires
        exit_info.following_rip() <= usize::MAX,
    ensures
        r == ExitResult::Ok(None),
        *final(vmcs) == old(vmcs).with_rip(exit_info.following_rip()),
        *final(guest_state) == old(guest_state).with_rax(0),
        final(vmcs).guest_rip == exit_info.guest_rip + exit_info.exit_instruction_length,
        *final(vmcs) == (AutoVmcs { guest_rip: final(vmcs).guest_rip, ..*old(vmcs) }),
        *final(guest_state) == (GuestState { rax: 0, ..*old(guest_state) }),
{
    exit_info.next_rip(vmcs);
    guest_state.rax = 0;
    Ok(None)
}

/// Whether the guest can be moved behind the instruction that caused the exit.
pub open spec fn can_advance(vmcs: AutoVmcs) -> bool {
    vmcs.guest_rip + vmcs.vm_exit_instruction_len <= usize::MAX
}

/// The address space and the address in which the traps are searched for an exit that can hit one.
pub open spec fn searched(vmcs: AutoVmcs) -> (TrapKind, usize) {
    if basic_reason(vmcs) == ExitReason::IO_INSTRUCTION.code() {
        (TrapKind::GuestTrapIo, IoInfo::decoded(vmcs.exit_qualification).port as usize)
    } else {
        (TrapKind::GuestTrapMem, vmcs.guest_physical_address as usize)
    }
}

/// Whether the handler can handle the exit, where `hit` says whether the access that caused it can
/// hit a trap.
pub open spec fn is_handled_if(vmcs: AutoVmcs, guest_state: GuestState, hit: bool) -> bool {
    let reason = basic_reason(vmcs);
    let io_info = IoInfo::decoded(vmcs.exit_qualification);
    &&& ExitReason::known(reason)
    &&& reason == ExitReason::EXTERNAL_INTERRUPT.code() ==> is_external_interrupt(
        ExitInterruptionInfo::decoded(vmcs),
    )
    &&& reason == ExitReason::CPUID.code() ==> can_advance(vmcs) && is_answered(
        guest_state.rax as u32,
        vmcs.virtual_processor_id,
    )
    &&& reason == ExitReason::VMCALL.code() ==> can_advance(vmcs)
    &&& reason == ExitReason::IO_INSTRUCTION.code() ==> can_advance(vmcs) && (is_internal_port(
        io_info.port,
    ) || fits_packet(io_info) || !hit)
    &&& reason == ExitReason::EPT_VIOLATION.code() && vmcs.vm_exit_instruction_len
        <= X86_MAX_INST_LEN && hit ==> can_advance(vmcs)
}

/// Whether the handler can handle the exit of a guest with these traps.
pub open spec fn is_handled_exit(
    vmcs: AutoVmcs,
    guest_state: GuestState,
    traps: &Mutex<TrapMap>,
) -> bool {
    is_handled_if(vmcs, guest_state, may_hit(traps, searched(vmcs).0, searched(vmcs).1))
}

/// What handling an exit does to the VMCS, to the guest's registers and to the requests that wait
/// for the devices, and how it ends.
pub open spec fn exit_is_handled(
    exit_info: ExitInfo,
    gpm: &Arc<dyn GuestPhysMemorySetTrait>,
    traps: &Mutex<TrapMap>,
    timer: PitTimer,
    vmcs: AutoVmcs,
    vmcs_after: AutoVmcs,
    guest: GuestState,
    guest_after: GuestState,
    requests: Seq<DeviceRequest>,
    requests_after: Seq<DeviceRequest>,
    r: ExitResult,
) -> bool {
    match exit_info.exit_reason {
        ExitReason::EXTERNAL_INTERRUPT => {
            &&& vmcs_after == vmcs
            &&& guest_after == guest
            &&& requests_after == requests + interrupt_request(
                ExitInterruptionInfo::decoded(vmcs).vector,
            )
            &&& r == ExitResult::Ok(None)
        },
        ExitReason::INTERRUPT_WINDOW => {
            &&& vmcs_after == vmcs.with_interrupt_window_exiting(false)
            &&& guest_after == guest
            &&& requests_after == requests
            &&& r == ExitResult::Ok(None)
        },
        ExitReason::CPUID => {
            &&& vmcs_after == vmcs.with_rip(exit_info.following_rip())
            &&& is_answer(vmcs, guest, guest_after)
            &&& requests_after == requests
            &&& r == ExitResult::Ok(None)
        },
        ExitReason::VMCALL => {
            &&& vmcs_after == vmcs.with_rip(exit_info.following_rip())
            &&& guest_after == guest.with_rax(0)
            &&& requests_after == requests
            &&& r == ExitResult::Ok(None)
        },
        ExitReason::IO_INSTRUCTION => {
            &&& vmcs_after == vmcs.with_rip(exit_info.following_rip())
            &&& io_is_handled(
                IoInfo::decoded(exit_info.exit_qualification),
                traps,
                timer,
                guest,
                guest_after,
                requests,
                requests_after,
                r,
            )
        },
        ExitReason::EPT_VIOLATION => {
            &&& guest_after == guest
            &&& requests_after == requests
            &&& ept_violation_is_handled(
                exit_info,
                vmcs.guest_physical_address as usize,
                gpm,
                traps,
                vmcs,
                vmcs_after,
                r,
            )
        },
        _ => {
            &&& vmcs_after == vmcs
            &&& guest_after == guest
            &&& requests_after == requests
            &&& r == ExitResult::Err(RvmError::NotSupported)
        },
    }
}

/// Hands an exit to the handler of its reason.
fn dispatch_exit(
    exit_info: &ExitInfo,
    vmcs: &mut AutoVmcs,
    guest_state: &mut GuestState,
    interrupt_state: &mut InterruptState,
    gpm: &Arc<dyn GuestPhysMemorySetTrait>,
    traps: &Mutex<TrapMap>,
) -> (r: ExitResult)
    requires
        is_handled_exit(*old(vmcs), *old(guest_state), traps),
        *exit_info == ExitInfo::decoded(*old(vmcs)),
        exit_info.exit_reason.code() == basic_reason(*old(vmcs)),
    ensures
        exit_is_handled(
            *exit_info,
            gpm,
            traps,
            old(interrupt_state).timer,
            *old(vmcs),
            *final(vmcs),
            *old(guest_state),
            *final(guest_state),
            old(interrupt_state).requests@,
            final(interrupt_state).requests@,
            r,
        ),
        final(interrupt_state).timer == old(interrupt_state).timer,
{
    match exit_info.exit_reason {
        ExitReason::EXTERNAL_INTERRUPT => handle_external_interrupt(vmcs, interrupt_state),
        ExitReason::INTERRUPT_WINDOW => handle_interrupt_window(vmcs),
        ExitReason::CPUID => handle_cpuid(exit_info, vmcs, guest_state),
        ExitReason::VMCALL => handle_vmcall(exit_info, vmcs, guest_state),
        ExitReason::IO_INSTRUCTION => handle_io_instruction(
            exit_info,
            vmcs,
            guest_state,
            interrupt_state,
            traps,
        ),
        ExitReason::EPT_VIOLATION => handle_ept_violation(exit_info, vmcs, gpm, traps),
        _ => Err(RvmError::NotSupported),
    }
}

/// What reading the instruction that caused an exit gave: its bytes, or why they cannot be read.
pub type ExitReport = RvmResult<Vec<u8>>;

/// That `report` is what reading the instruction that caused the exit can give. The instruction
/// lies at the RIP of the exit in the code segment, and has the length that the exit reports.
pub open spec fn is_instruction_read(
    exit_info: ExitInfo,
    guest_cs_base: usize,
    gpm: &Arc<dyn GuestPhysMemorySetTrait>,
    report: ExitReport,
) -> bool {
    exists|code: Seq<u8>, read: RvmResult<usize>|
        {
            &&& #[trigger] (**gpm).may_read(
                (guest_cs_base + exit_info.guest_rip) as usize,
                zeros(exit_info.exit_instruction_length as nat),
                code,
                read,
            )
            &&& read matches Err(e) ==> report == ExitReport::Err(e)
            &&& read is Ok ==> (report matches Ok(bytes) && bytes@ == code)
        }
}

/// That `report` is the report on an exit whose handling ended with `r`: the instruction is read
/// exactly if the handling failed. It is not read where its address does not exist.
pub open spec fn is_report(
    exit_info: ExitInfo,
    guest_cs_base: usize,
    gpm: &Arc<dyn GuestPhysMemorySetTrait>,
    r: ExitResult,
    report: Option<ExitReport>,
) -> bool {
    if r is Err && guest_cs_base + exit_info.guest_rip <= usize::MAX {
        report matches Some(given) && is_instruction_read(exit_info, guest_cs_base, gpm, given)
    } else {
        report is None
    }
}

/// Reads the instruction that caused an exit. `exit_info` is what the processor reported; the VMCS
/// may have changed since then.
pub fn read_exit_instruction(
    exit_info: &ExitInfo,
    vmcs: &AutoVmcs,
    gpm: &Arc<dyn GuestPhysMemorySetTrait>,
) -> (r: ExitReport)
    requires
        vmcs.guest_cs_base + exit_info.guest_rip <= usize::MAX,
    ensures
        is_instruction_read(*exit_info, vmcs.guest_cs_base, gpm, r),
{
    let mut code: Vec<u8> = vec![0u8;exit_info.exit_instruction_length as usize];
    assert(code@ =~= zeros(exit_info.exit_instruction_length as nat));
    match gpm.read_memory(vmcs.guest_cs_base + exit_info.guest_rip, code.as_mut_slice()) {
        Err(e) => Err(e),
        Ok(_) => Ok(code),
    }
}

/// The report on an exit whose handling ended with `res`.
fn report_exit(
    exit_info: &ExitInfo,
    vmcs: &AutoVmcs,
    gpm: &Arc<dyn GuestPhysMemorySetTrait>,
    res: &ExitResult,
) -> (r: Option<ExitReport>)
    ensures
        is_report(*exit_info, vmcs.guest_cs_base, gpm, *res, r),
{
    if res.is_err() && exit_info.guest_rip <= usize::MAX - vmcs.guest_cs_base {
        Some(read_exit_instruction(exit_info, vmcs, gpm))
    } else {
        None
    }
}

/// Handles a VM exit as `vmexit_handler` does, and returns with its result the instruction that was
/// read where the handling failed.
pub fn vmexit_handler_with_report(
    vmcs: &mut AutoVmcs,
    guest_state: &mut GuestState,
    interrupt_state: &mut InterruptState,
    gpm: &Arc<dyn GuestPhysMemorySetTrait>,
    traps: &Mutex<TrapMap>,
) -> (r: (ExitResult, Option<ExitReport>))
    requires
        is_handled_exit(*old(vmcs), *old(guest_state), traps),
    ensures
        exit_is_handled(
            ExitInfo::decoded(*old(vmcs)),
            gpm,
            traps,
            old(interrupt_state).timer,
            *old(vmcs),
            *final(vmcs),
            *old(guest_state),
            *final(guest_state),
            old(interrupt_state).requests@,
            final(interrupt_state).requests@,
            r.0,
        ),
        final(interrupt_state).timer == old(interrupt_state).timer,
        is_report(ExitInfo::decoded(*old(vmcs)), old(vmcs).guest_cs_base, gpm, r.0, r.1),
{
    let exit_info: ExitInfo = ExitInfo::from(vmcs);
    let res: ExitResult = dispatch_exit(
        &exit_info,
        vmcs,
        guest_state,
        interrupt_state,
        gpm,
        traps,
    );
    let report: Option<ExitReport> = report_exit(&exit_info, vmcs, gpm, &res);
    (res, report)
}

/// The common handler of VM exits.
///
/// Returns:
/// - `Ok(RvmExitPacket)` if need to forward the packet to the userspace handler.
/// - `Ok(None)` if the hypervisor has completed the exit handling and
///   can continue to run VMRESUME, once the requests that `interrupt_state` holds for the devices
///   have been carried out.
/// - `Err(RvmError)` if an error occurs. The instruction that caused the exit has then been read.
pub fn vmexit_handler(
    vmcs: &mut AutoVmcs,
    guest_state: &mut GuestState,
    interrupt_state: &mut InterruptState,
    gpm: &Arc<dyn GuestPhysMemorySetTrait>,
    traps: &Mutex<TrapMap>,
) -> (r: ExitResult)
    requires
        is_handled_exit(*old(vmcs), *old(guest_state), traps),
    ensures
        exit_is_handled(
            ExitInfo::decoded(*old(vmcs)),
            gpm,
            traps,
            old(interrupt_state).timer,
            *old(vmcs),
            *final(vmcs),
            *old(guest_state),
            *final(guest_state),
            old(interrupt_state).requests@,
            final(interrupt_state).requests@,
            r,
        ),
        final(interrupt_state).timer == old(interrupt_state).timer,
        r is Err && old(vmcs).guest_cs_base + old(vmcs).guest_rip <= usize::MAX ==> exists|
            report: ExitReport,
        | #[trigger]
            is_instruction_read(
                ExitInfo::decoded(*old(vmcs)),
                old(vmcs).guest_cs_base,
                gpm,
                report,
            ),
{
    vmexit_handler_with_report(vmcs, guest_state, interrupt_state, gpm, traps).0
}

/// Whether `vmexit_handler` can handle the exit, where `hit` says whether the access that caused it
/// can hit a trap. It cannot where the processor reports a reason or an interrupt that does not
/// exist, where the guest would be moved past the end of its address space, where `CPUID` has no
/// answer, and where a write to a trapped port is wider than a packet.
pub fn can_handle_exit(vmcs: &AutoVmcs, guest_state: &GuestState, hit: bool) -> (r: bool)
    ensures
        r == is_handled_if(*vmcs, *guest_state, hit),
{
    let full_reason: u32 = vmcs.vm_exit_reason;
    let code: u32 = full_reason & 0xffff;
    let can_advance: bool = vmcs.vm_exit_instruction_len as usize <= usize::MAX - vmcs.guest_rip;
    match ExitReason::from_code(code) {
        None => false,
        Some(ExitReason::EXTERNAL_INTERRUPT) => {
            let info: ExitInterruptionInfo = ExitInterruptionInfo::from(vmcs);
            info.valid && info.interruption_type == 0 && info.vector >= IRQ0
        },
        Some(ExitReason::CPUID) => {
            let leaf: u32 = guest_state.rax as u32;
            can_advance && can_answer(leaf, vmcs.virtual_processor_id)
        },
        Some(ExitReason::VMCALL) => can_advance,
        Some(ExitReason::IO_INSTRUCTION) => {
            let io_info: IoInfo = IoInfo::from(vmcs.exit_qualification);
            let internal: bool = io_info.port == QEMU_DEBUG_PORT || io_info.port
                == PIT_CHANNEL0_PORT;
            can_advance && (internal || io_info.input || io_info.access_size <= 4 || !hit)
        },
        Some(ExitReason::EPT_VIOLATION) => {
            can_advance || !hit || vmcs.vm_exit_instruction_len as usize > X86_MAX_INST_LEN
        },
        Some(_) => true,
    }
}

/// Whether the exit is a read of the interval timer, so that the handler gives the guest the byte
/// that `interrupt_state` holds.
pub fn reads_timer(vmcs: &AutoVmcs) -> (r: bool)
    ensures
        r == (basic_reason(*vmcs) == ExitReason::IO_INSTRUCTION.code() && is_timer_access(
            IoInfo::decoded(vmcs.exit_qualification),
        )),
        r == (vmcs.vm_exit_reason & 0xffff == 30 && (vmcs.exit_qualification >> 16) & 0xffff == 0x40
            && vmcs.exit_qualification & 0x8 != 0),
{
    let full_reason: u32 = vmcs.vm_exit_reason;
    let io_info: IoInfo = IoInfo::from(vmcs.exit_qualification);
    match ExitReason::from_code(full_reason & 0xffff) {
        Some(ExitReason::IO_INSTRUCTION) => io_info.port == PIT_CHANNEL0_PORT && io_info.input,
        _ => false,
    }
}

/// Handles any VM exit that can be handled as `vmexit_handler_with_report` does. Where it cannot be
/// handled, nothing changes and there is no result; where it cannot be handled only if the access
/// hits a trap, that is so because it can.
pub fn try_vmexit_handler(
    vmcs: &mut AutoVmcs,
    guest_state: &mut GuestState,
    interrupt_state: &mut InterruptState,
    gpm: &Arc<dyn GuestPhysMemorySetTrait>,
    traps: &Mutex<TrapMap>,
) -> (r: Option<(ExitResult, Option<ExitReport>)>)
    ensures
        match r {
            Some((res, report)) => {
                &&& exit_is_handled(
                    ExitInfo::decoded(*old(vmcs)),
                    gpm,
                    traps,
                    old(interrupt_state).timer,
                    *old(vmcs),
                    *final(vmcs),
                    *old(guest_state),
                    *final(guest_state),
                    old(interrupt_state).requests@,
                    final(interrupt_state).requests@,
                    res,
                )
                &&& is_report(
                    ExitInfo::decoded(*old(vmcs)),
                    old(vmcs).guest_cs_base,
                    gpm,
                    res,
                    report,
                )
                &&& is_handled_if(*old(vmcs), *old(guest_state), false)
            },
            None => {
                &&& *final(vmcs) == *old(vmcs)
                &&& *final(guest_state) == *old(guest_state)
                &&& final(interrupt_state).requests@ == old(interrupt_state).requests@
                &&& !is_handled_exit(*old(vmcs), *old(guest_state), traps)
            },
        },
        final(interrupt_state).timer == old(interrupt_state).timer,
{
    if can_handle_exit(vmcs, guest_state, true) {
        return Some(
            vmexit_handler_with_report(vmcs, guest_state, interrupt_state, gpm, traps),
        );
    }
    if !can_handle_exit(vmcs, guest_state, false) {
        return None;
    }
    // The exit can be handled unless it hits a trap.
    let exit_info: ExitInfo = ExitInfo::from(vmcs);
    let res: ExitResult = match exit_info.exit_reason {
        ExitReason::IO_INSTRUCTION => {
            let io_info: IoInfo = IoInfo::from(exit_info.exit_qualification);
            let port: usize = io_info.port as usize;
            if find_trap(traps, TrapKind::GuestTrapIo, port).is_some() {
                return None;
            }
            exit_info.next_rip(vmcs);
            handle_trapped_io(&io_info, guest_state, None)
        },
        _ => {
            let guest_paddr: usize = vmcs.guest_physical_address as usize;
            if find_trap(traps, TrapKind::GuestTrapMem, guest_paddr).is_some() {
                return None;
            }
            finish_page_fault(gpm.handle_page_fault(guest_paddr))
        },
    };
    let report: Option<ExitReport> = report_exit(&exit_info, vmcs, gpm, &res);
    Some((res, report))
}

} // verus!
