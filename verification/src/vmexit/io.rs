//! Emulation of the I/O instructions.

use crate::consts::{PIT_CHANNEL0_PORT, QEMU_DEBUG_PORT};
use crate::packet::{IoPacket, RvmExitPacket, RvmExitPacketInner};
use crate::trap_map::{find_trap, may_find, may_hit, Trap, TrapKind, TrapMap};
use crate::vcpu::{DeviceRequest, GuestState, InterruptState, PitTimer};
use crate::vmcs::AutoVmcs;
use crate::vmexit::info::{ExitInfo, IoInfo};
use crate::vmexit::ExitResult;
use spin::Mutex;
use vstd::prelude::*;

verus! {

/// Byte `i` of a value; byte 0 is the least significant.
pub open spec fn byte_of(value: u64, i: int) -> u8 {
    ((value >> ((8 * i) as u64)) & 0xff) as u8
}

/// The bytes that an access carries to userspace: those of `rax` that the guest writes, and zeros
/// behind them; nothing but zeros where the guest reads.
pub open spec fn carried(io_info: IoInfo, rax: u64) -> Seq<u8> {
    Seq::new(
        4,
        |i: int|
            if !io_info.input && i < io_info.access_size {
                byte_of(rax, i)
            } else {
                0
            },
    )
}

/// That `packet` forwards the access to the owner of the trap with `key`.
pub open spec fn forwards_io(packet: RvmExitPacket, key: u64, io_info: IoInfo, rax: u64) -> bool {
    &&& packet.key == key
    &&& packet.inner matches RvmExitPacketInner::Io(io)
    &&& io.port == io_info.port
    &&& io.access_size == io_info.access_size
    &&& io.input == io_info.input
    &&& io.string == io_info.string
    &&& io.repeat == io_info.repeat
    &&& io.data@ == carried(io_info, rax)
}

/// Whether the hypervisor itself answers accesses to the port.
pub open spec fn is_internal_port(port: u16) -> bool {
    port == QEMU_DEBUG_PORT || port == PIT_CHANNEL0_PORT
}

/// Whether the access is a read of the interval timer.
pub open spec fn is_timer_access(io_info: IoInfo) -> bool {
    io_info.port == PIT_CHANNEL0_PORT && io_info.input
}

/// What an access to a port that the hypervisor answers asks of the devices.
pub open spec fn internal_request(io_info: IoInfo, rax: u64) -> Seq<DeviceRequest> {
    if io_info.input {
        seq![]
    } else if io_info.port == QEMU_DEBUG_PORT {
        seq![DeviceRequest::DebugOutput { value: rax as u8 }]
    } else {
        seq![DeviceRequest::TimerWrite { value: rax as u8 }]
    }
}

/// The guest's registers after an access to a port that the hypervisor answers: the timer gives the
/// guest its byte, and nothing else changes.
pub open spec fn after_internal_io(
    io_info: IoInfo,
    timer: PitTimer,
    before: GuestState,
) -> GuestState {
    if is_timer_access(io_info) {
        before.with_rax(timer.data as u64)
    } else {
        before
    }
}

/// The guest's registers after an access that hit `trap`. A result of 32 bits is extended by zeros
/// to the whole register, so the register is cleared before userspace supplies it.
pub open spec fn after_trapped_io(
    io_info: IoInfo,
    before: GuestState,
    trap: Option<Trap>,
) -> GuestState {
    if trap is Some && io_info.input && io_info.access_size == 4 {
        before.with_rax(0)
    } else {
        before
    }
}

/// How an access that hit `trap` ends: it is forwarded, or it is ignored where it hit nothing.
pub open spec fn is_trapped_io_result(
    io_info: IoInfo,
    before: GuestState,
    trap: Option<Trap>,
    r: ExitResult,
) -> bool {
    match trap {
        Some(t) => r matches Ok(Some(packet)) && forwards_io(packet, t.key, io_info, before.rax),
        None => r == ExitResult::Ok(None),
    }
}

/// Whether a packet has room for what the access writes.
pub open spec fn fits_packet(io_info: IoInfo) -> bool {
    io_info.input || io_info.access_size <= 4
}

pub(crate) proof fn lemma_bytes(value: u64)
    by (bit_vector)
    ensures
        (value >> 0) & 0xff == value % 0x100,
        (value >> 8) & 0xff == (value / 0x100) % 0x100,
        (value >> 16) & 0xff == (value / 0x1_0000) % 0x100,
        (value >> 24) & 0xff == (value / 0x100_0000) % 0x100,
{
}

/// Answers an access to a port that the hypervisor does not answer itself, where `trap` is what the
/// access hit.
pub fn handle_trapped_io(
    io_info: &IoInfo,
    guest_state: &mut GuestState,
    trap: Option<Trap>,
) -> (r: ExitResult)
    requires
        trap is Some ==> fits_packet(*io_info),
    ensures
        *final(guest_state) == after_trapped_io(*io_info, *old(guest_state), trap),
        is_trapped_io_result(*io_info, *old(guest_state), trap, r),
        trap is None ==> r == ExitResult::Ok(None) && *final(guest_state) == *old(guest_state),
        trap is Some && io_info.input && io_info.access_size == 4 ==> *final(guest_state) == (
        GuestState { rax: 0, ..*old(guest_state) }),
        !(io_info.input && io_info.access_size == 4) ==> *final(guest_state) == *old(guest_state),
        trap matches Some(t) ==> {
            let rax = old(guest_state).rax as int;
            let size = if io_info.input { 0 } else { io_info.access_size as int };
            &&& r matches Ok(Some(packet))
            &&& packet.key == t.key
            &&& packet.inner matches RvmExitPacketInner::Io(io)
            &&& io.port == io_info.port
            &&& io.access_size == io_info.access_size
            &&& io.input == io_info.input
            &&& io.string == io_info.string
            &&& io.repeat == io_info.repeat
            &&& io.data@[0] == if size > 0 { rax % 0x100 } else { 0 }
            &&& io.data@[1] == if size > 1 { (rax / 0x100) % 0x100 } else { 0 }
            &&& io.data@[2] == if size > 2 { (rax / 0x1_0000) % 0x100 } else { 0 }
            &&& io.data@[3] == if size > 3 { (rax / 0x100_0000) % 0x100 } else { 0 }
        },
{
    proof {
        lemma_bytes(guest_state.rax);
    }
    let trap: Trap = match trap {
        Some(t) => t,
        None => {
            return Ok(None);
        },
    };

    let ghost before = *guest_state;
    let mut data: [u8; 4] = [0u8;4];
    if io_info.input {
        // From Volume 1, Section 3.4.1.1: 32-bit operands generate a 32-bit
        // result, zero-extended to a 64-bit result in the destination general-
        // purpose register.
        if io_info.access_size == 4 {
            guest_state.rax = 0;
        }
    } else {
        let rax: u64 = guest_state.rax;
        let len: usize = io_info.access_size as usize;
        let mut i: usize = 0;
        while i < len
            invariant
                i <= len <= 4,
                forall|j: int| 0 <= j < i ==> data@[j] == byte_of(rax, j),
                forall|j: int| i <= j < 4 ==> data@[j] == 0,
            decreases len - i,
        {
            let shift: u64 = 8 * i as u64;
            let low: u64 = (rax >> shift) & 0xff;
            assert((rax >> shift) & 0xff <= 0xff) by (bit_vector);
            data[i] = low as u8;
            i += 1;
        }
    }
    assert(data@ =~= carried(*io_info, before.rax));

    Ok(
        Some(
            RvmExitPacket::new_io_packet(
                trap.key,
                IoPacket {
                    port: io_info.port,
                    access_size: io_info.access_size,
                    input: io_info.input,
                    string: io_info.string,
                    repeat: io_info.repeat,
                    data,
                },
            ),
        ),
    )
}

/// Emulates an I/O instruction: the debug port and the interval timer are answered here, an access
/// to a trapped port is forwarded, and any other access is ignored.
pub fn handle_io_instruction(
    exit_info: &ExitInfo,
    vmcs: &mut AutoVmcs,
    guest_state: &mut GuestState,
    interrupt_state: &mut InterruptState,
    traps: &Mutex<TrapMap>,
) -> (r: ExitResult)
    requires
        exit_info.following_rip() <= usize::MAX,
        ({
            let io_info = IoInfo::decoded(exit_info.exit_qualification);
            ||| is_internal_port(io_info.port)
            ||| fits_packet(io_info)
            ||| !may_hit(traps, TrapKind::GuestTrapIo, io_info.port as usize)
        }),
    ensures
        *final(vmcs) == old(vmcs).with_rip(exit_info.following_rip()),
        io_is_handled(
            IoInfo::decoded(exit_info.exit_qualification),
            traps,
            old(interrupt_state).timer,
            *old(guest_state),
            *final(guest_state),
            old(interrupt_state).requests@,
            final(interrupt_state).requests@,
            r,
        ),
        final(interrupt_state).timer == old(interrupt_state).timer,
{
    let io_info: IoInfo = IoInfo::from(exit_info.exit_qualification);

    exit_info.next_rip(vmcs);
    if io_info.port == QEMU_DEBUG_PORT {
        if !io_info.input {
            interrupt_state.request(DeviceRequest::DebugOutput { value: guest_state.rax as u8 });
        }
        assert(interrupt_state.requests@ =~= old(interrupt_state).requests@ + internal_request(
            io_info,
            guest_state.rax,
        ));
        return Ok(None);
    }
    if io_info.port == PIT_CHANNEL0_PORT {
        let ghost rax = guest_state.rax;
        if io_info.input {
            guest_state.rax = interrupt_state.timer.read() as u64;
        } else {
            interrupt_state.request(DeviceRequest::TimerWrite { value: guest_state.rax as u8 });
        }
        assert(interrupt_state.requests@ =~= old(interrupt_state).requests@ + internal_request(
            io_info,
            rax,
        ));
        return Ok(None);
    }
    let trap: Option<Trap> = find_trap(traps, TrapKind::GuestTrapIo, io_info.port as usize);
    handle_trapped_io(&io_info, guest_state, trap)
}

/// What handling an access does, on whatever locking the traps gives access to.
pub open spec fn io_is_handled(
    io_info: IoInfo,
    traps: &Mutex<TrapMap>,
    timer: PitTimer,
    before: GuestState,
    after: GuestState,
    requests_before: Seq<DeviceRequest>,
    requests_after: Seq<DeviceRequest>,
    r: ExitResult,
) -> bool {
    if is_internal_port(io_info.port) {
        &&& after == after_internal_io(io_info, timer, before)
        &&& requests_after == requests_before + internal_request(io_info, before.rax)
        &&& r == ExitResult::Ok(None)
    } else {
        &&& requests_after == requests_before
        &&& exists|trap: Option<Trap>|
            {
                &&& #[trigger] may_find(
                    traps,
                    TrapKind::GuestTrapIo,
                    io_info.port as usize,
                    trap,
                )
                &&& after == after_trapped_io(io_info, before, trap)
                &&& is_trapped_io_result(io_info, before, trap, r)
            }
    }
}

} // verus!
