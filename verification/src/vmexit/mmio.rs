//! Violations of the extended page tables: accesses to trapped memory, and page faults.

use crate::consts::X86_MAX_INST_LEN;
use crate::error::{RvmError, RvmResult};
use crate::memory::GuestPhysMemorySetTrait;
use crate::packet::{MmioPacket, RvmExitPacket, RvmExitPacketInner};
use crate::trap_map::{find_trap, may_find, may_hit, Trap, TrapKind, TrapMap};
use crate::vmcs::{AutoVmcs, GuestRegisterAccessRights};
use crate::vmexit::info::ExitInfo;
use crate::vmexit::ExitResult;
use spin::Mutex;
use std::sync::Arc;
use vstd::prelude::*;
use x86_64::registers::model_specific::EferFlags;

verus! {

/// Bit 10 of `IA32_EFER`: long mode is active.
pub const EFER_LONG_MODE_ACTIVE: u64 = 0x400;

/// Calls `EferFlags::from_bits_truncate` and `EferFlags::contains`. Trusted: the flags of the value
/// contain `LONG_MODE_ACTIVE` exactly if bit 10 of the value is one.
#[verifier::external_body]
fn is_long_mode_active(efer: u64) -> (r: bool)
    ensures
        r == (efer & EFER_LONG_MODE_ACTIVE != 0),
{
    EferFlags::from_bits_truncate(efer).contains(EferFlags::LONG_MODE_ACTIVE)
}

/// The default width of an operand in bytes: four in 64-bit code and in 32-bit code, two in 16-bit
/// code.
pub open spec fn operand_size(vmcs: AutoVmcs) -> u8 {
    let long = vmcs.guest_ia32_efer & EFER_LONG_MODE_ACTIVE != 0 && vmcs.guest_cs_ar_bytes
        & GuestRegisterAccessRights::LONG_MODE != 0;
    let wide = vmcs.guest_cs_ar_bytes & GuestRegisterAccessRights::DB != 0;
    if long || wide {
        4
    } else {
        2
    }
}

/// The default width of an operand of the guest's code, in bytes.
pub fn default_operand_size(vmcs: &AutoVmcs) -> (r: u8)
    ensures
        r == operand_size(*vmcs),
        vmcs.guest_cs_ar_bytes & 0x4000 != 0 ==> r == 4,
        vmcs.guest_ia32_efer & 0x400 != 0 && vmcs.guest_cs_ar_bytes & 0x2000 != 0 ==> r == 4,
        vmcs.guest_cs_ar_bytes & 0x4000 == 0 && (vmcs.guest_ia32_efer & 0x400 == 0
            || vmcs.guest_cs_ar_bytes & 0x2000 == 0) ==> r == 2,
{
    let cs_rights = GuestRegisterAccessRights { bits: vmcs.guest_cs_ar_bytes };
    proof {
        let rights: u32 = vmcs.guest_cs_ar_bytes;
        assert(rights & 0x2000 == 0 || rights & 0x2000 == 0x2000) by (bit_vector);
        assert(rights & 0x4000 == 0 || rights & 0x4000 == 0x4000) by (bit_vector);
    }
    if (is_long_mode_active(vmcs.guest_ia32_efer) && cs_rights.contains(
        GuestRegisterAccessRights::LONG_MODE,
    )) || cs_rights.contains(GuestRegisterAccessRights::DB) {
        4  // IA32-e 64 bit mode, or CS.D set (and not 64 bit mode).
    } else {
        2  // CS.D clear (and not 64 bit mode).
    }
}

/// Whether the instruction that caused the exit is too long to be one.
pub open spec fn is_too_long(exit_info: ExitInfo) -> bool {
    exit_info.exit_instruction_length > X86_MAX_INST_LEN
}

/// That `packet` forwards an access to `guest_paddr` by the instruction `code` to the owner of the
/// trap with `key`.
pub open spec fn forwards_mmio(
    packet: RvmExitPacket,
    key: u64,
    vmcs: AutoVmcs,
    guest_paddr: usize,
    code: Seq<u8>,
) -> bool {
    &&& packet.key == key
    &&& packet.inner matches RvmExitPacketInner::Mmio(mmio)
    &&& mmio.wf()
    &&& mmio.addr == guest_paddr
    &&& mmio.inst_len == code.len()
    &&& mmio.default_operand_size == operand_size(vmcs)
    &&& mmio.instruction() == code
}

/// The packet of an access to trapped memory, before the instruction has been read; or the error
/// where accesses that hit a trap of this kind cannot be forwarded. The guest goes on behind the
/// instruction in either case.
pub fn handle_trapped_mmio(
    exit_info: &ExitInfo,
    vmcs: &mut AutoVmcs,
    guest_paddr: usize,
    trap: &Trap,
) -> (r: RvmResult<MmioPacket>)
    requires
        exit_info.following_rip() <= usize::MAX,
        !is_too_long(*exit_info),
    ensures
        *final(vmcs) == old(vmcs).with_rip(exit_info.following_rip()),
        final(vmcs).guest_rip == exit_info.guest_rip + exit_info.exit_instruction_length,
        *final(vmcs) == (AutoVmcs { guest_rip: final(vmcs).guest_rip, ..*old(vmcs) }),
        match trap.kind {
            TrapKind::GuestTrapBell => r == RvmResult::<MmioPacket>::Err(RvmError::NotSupported),
            TrapKind::GuestTrapIo => r == RvmResult::<MmioPacket>::Err(RvmError::BadState),
            TrapKind::GuestTrapMem => r matches Ok(packet) && {
                &&& packet.addr == guest_paddr
                &&& packet.inst_len == exit_info.exit_instruction_length
                &&& packet.default_operand_size == operand_size(*old(vmcs))
                &&& packet.default_operand_size == 4 <==> (old(vmcs).guest_cs_ar_bytes & 0x4000
                    != 0 || (old(vmcs).guest_ia32_efer & 0x400 != 0 && old(vmcs).guest_cs_ar_bytes
                    & 0x2000 != 0))
                &&& packet.default_operand_size == 2 || packet.default_operand_size == 4
                &&& forall|i: int| 0 <= i < 15 ==> packet.inst_buf@[i] == 0
            },
        },
{
    exit_info.next_rip(vmcs);
    match trap.kind {
        TrapKind::GuestTrapBell => Err(RvmError::NotSupported),
        TrapKind::GuestTrapMem => {
            let default_operand_size: u8 = default_operand_size(vmcs);
            Ok(
                MmioPacket {
                    addr: guest_paddr as u64,
                    inst_len: exit_info.exit_instruction_length as u8,
                    default_operand_size,
                    inst_buf: [0u8;15],
                },
            )
        },
        _ => Err(RvmError::BadState),
    }
}

/// Completes the packet of an access to trapped memory, where `read` is what reading the
/// instruction returned and `code` is what it left in the buffer.
pub fn finish_mmio(
    key: u64,
    packet: MmioPacket,
    read: RvmResult<usize>,
    code: &[u8],
) -> (r: ExitResult)
    requires
        packet.inst_len <= X86_MAX_INST_LEN,
        code@.len() == packet.inst_len,
        forall|i: int| 0 <= i < 15 ==> packet.inst_buf@[i] == 0,
    ensures
        read matches Err(e) ==> r == ExitResult::Err(e),
        read is Ok ==> {
            &&& r matches Ok(Some(forwarded))
            &&& forwarded.key == key
            &&& forwarded.inner matches RvmExitPacketInner::Mmio(mmio)
            &&& mmio.wf()
            &&& mmio.addr == packet.addr
            &&& mmio.inst_len == packet.inst_len
            &&& mmio.default_operand_size == packet.default_operand_size
            &&& mmio.instruction() == code@
            &&& forall|i: int| 0 <= i < code@.len() ==> mmio.inst_buf@[i] == code@[i]
            &&& forall|i: int| code@.len() <= i < 15 ==> mmio.inst_buf@[i] == 0
        },
{
    match read {
        Err(e) => Err(e),
        Ok(_) => {
            let ghost blank = packet;
            let mut packet: MmioPacket = packet;
            let len: usize = packet.inst_len as usize;
            let mut i: usize = 0;
            while i < len
                invariant
                    i <= len <= 15,
                    len == packet.inst_len,
                    packet.inst_len == blank.inst_len,
                    packet.addr == blank.addr,
                    packet.default_operand_size == blank.default_operand_size,
                    code@.len() == len,
                    forall|j: int| 0 <= j < i ==> packet.inst_buf@[j] == code@[j],
                    forall|j: int| i <= j < 15 ==> packet.inst_buf@[j] == 0,
                decreases len - i,
            {
                packet.inst_buf[i] = code[i];
                i += 1;
            }
            assert(packet.instruction() =~= code@);
            Ok(Some(RvmExitPacket::new_mmio_packet(key, packet)))
        },
    }
}

/// How an access to trapped memory ends, where `read` is what reading the instruction returned and
/// `code` is what it left in the buffer.
pub open spec fn is_mmio_result(
    key: u64,
    vmcs: AutoVmcs,
    guest_paddr: usize,
    read: RvmResult<usize>,
    code: Seq<u8>,
    r: ExitResult,
) -> bool {
    match read {
        Err(e) => r == ExitResult::Err(e),
        Ok(_) => r matches Ok(Some(packet)) && forwards_mmio(packet, key, vmcs, guest_paddr, code),
    }
}

/// A buffer of zeros.
pub open spec fn zeros(len: nat) -> Seq<u8> {
    Seq::new(len, |i: int| 0u8)
}

/// What handling an access does that hit `trap`, where `before` and `after` are the VMCS before and
/// after.
pub open spec fn trapped_mmio_is_handled(
    exit_info: ExitInfo,
    guest_paddr: usize,
    gpm: &Arc<dyn GuestPhysMemorySetTrait>,
    trap: Option<Trap>,
    before: AutoVmcs,
    after: AutoVmcs,
    r: ExitResult,
) -> bool {
    match trap {
        None => after == before && r == ExitResult::Ok(None),
        Some(t) => {
            &&& after == before.with_rip(exit_info.following_rip())
            &&& match t.kind {
                TrapKind::GuestTrapBell => r == ExitResult::Err(RvmError::NotSupported),
                TrapKind::GuestTrapIo => r == ExitResult::Err(RvmError::BadState),
                TrapKind::GuestTrapMem => exists|code: Seq<u8>, read: RvmResult<usize>|
                    {
                        &&& code.len() == exit_info.exit_instruction_length
                        &&& #[trigger] (**gpm).may_read(
                            exit_info.guest_rip,
                            zeros(exit_info.exit_instruction_length as nat),
                            code,
                            read,
                        )
                        &&& is_mmio_result(t.key, before, guest_paddr, read, code, r)
                    },
            }
        },
    }
}

/// What handling an access to `guest_paddr` does, on whatever locking the traps gives access to.
pub open spec fn mmio_is_handled(
    exit_info: ExitInfo,
    guest_paddr: usize,
    gpm: &Arc<dyn GuestPhysMemorySetTrait>,
    traps: &Mutex<TrapMap>,
    before: AutoVmcs,
    after: AutoVmcs,
    r: ExitResult,
) -> bool {
    if is_too_long(exit_info) {
        after == before && r == ExitResult::Err(RvmError::Internal)
    } else {
        exists|trap: Option<Trap>| #[trigger]
            may_find(traps, TrapKind::GuestTrapMem, guest_paddr, trap) && trapped_mmio_is_handled(
                exit_info,
                guest_paddr,
                gpm,
                trap,
                before,
                after,
                r,
            )
    }
}

/// Check whether the EPT violation is caused by accessing MMIO region.
///
/// Returns:
/// - `Ok(RvmExitPacket)` if it's an MMIO access, need to forward the packet to
///   the userspace handler.
/// - `Ok(None)` if it's not an MMIO access, handle it as a normal EPT page fault.
/// - `Err(RvmError)` if an error occurs.
pub fn handle_mmio(
    exit_info: &ExitInfo,
    vmcs: &mut AutoVmcs,
    guest_paddr: usize,
    gpm: &Arc<dyn GuestPhysMemorySetTrait>,
    traps: &Mutex<TrapMap>,
) -> (r: ExitResult)
    requires
        !is_too_long(*exit_info) && may_hit(traps, TrapKind::GuestTrapMem, guest_paddr)
            ==> exit_info.following_rip() <= usize::MAX,
    ensures
        mmio_is_handled(*exit_info, guest_paddr, gpm, traps, *old(vmcs), *final(vmcs), r),
{
    if exit_info.exit_instruction_length as usize > X86_MAX_INST_LEN {
        return Err(RvmError::Internal);
    }
    let trap: Trap = match find_trap(traps, TrapKind::GuestTrapMem, guest_paddr) {
        Some(t) => t,
        None => {
            return Ok(None);
        },
    };

    match handle_trapped_mmio(exit_info, vmcs, guest_paddr, &trap) {
        Err(e) => Err(e),
        Ok(packet) => {
            let mut code: Vec<u8> = vec![0u8;packet.inst_len as usize];
            assert(code@ =~= zeros(exit_info.exit_instruction_length as nat));
            let read: RvmResult<usize> = gpm.read_memory(
                exit_info.guest_rip,
                code.as_mut_slice(),
            );
            finish_mmio(trap.key, packet, read, code.as_slice())
        },
    }
}

/// How an exit ends of whose page fault the memory set made `outcome`.
pub open spec fn page_fault_result(outcome: RvmResult<()>) -> ExitResult {
    match outcome {
        Err(e) => Err(e),
        Ok(_) => Ok(None),
    }
}

/// Ends an exit of whose page fault the memory set made `outcome`.
pub fn finish_page_fault(outcome: RvmResult<()>) -> (r: ExitResult)
    ensures
        r == page_fault_result(outcome),
        outcome is Ok ==> r == ExitResult::Ok(None),
        outcome matches Err(e) ==> r == ExitResult::Err(e),
{
    match outcome {
        Err(e) => Err(e),
        Ok(_) => Ok(None),
    }
}

/// What handling an EPT violation at `guest_paddr` does: what handling it as an access to trapped
/// memory does, and where it is none, what the memory set makes of a page fault there.
pub open spec fn ept_violation_is_handled(
    exit_info: ExitInfo,
    guest_paddr: usize,
    gpm: &Arc<dyn GuestPhysMemorySetTrait>,
    traps: &Mutex<TrapMap>,
    before: AutoVmcs,
    after: AutoVmcs,
    r: ExitResult,
) -> bool {
    ||| {
        &&& r != ExitResult::Ok(None)
        &&& mmio_is_handled(exit_info, guest_paddr, gpm, traps, before, after, r)
    }
    ||| {
        &&& mmio_is_handled(
            exit_info,
            guest_paddr,
            gpm,
            traps,
            before,
            after,
            ExitResult::Ok(None),
        )
        &&& exists|outcome: RvmResult<()>| #[trigger]
            (**gpm).may_answer_fault(guest_paddr, outcome) && r == page_fault_result(outcome)
    }
}

/// Handles a violation of the extended page tables.
pub fn handle_ept_violation(
    exit_info: &ExitInfo,
    vmcs: &mut AutoVmcs,
    gpm: &Arc<dyn GuestPhysMemorySetTrait>,
    traps: &Mutex<TrapMap>,
) -> (r: ExitResult)
    requires
        !is_too_long(*exit_info) && may_hit(
            traps,
            TrapKind::GuestTrapMem,
            old(vmcs).guest_physical_address as usize,
        ) ==> exit_info.following_rip() <= usize::MAX,
    ensures
        ept_violation_is_handled(
            *exit_info,
            old(vmcs).guest_physical_address as usize,
            gpm,
            traps,
            *old(vmcs),
            *final(vmcs),
            r,
        ),
{
    let guest_paddr: usize = vmcs.guest_physical_address as usize;

    match handle_mmio(exit_info, vmcs, guest_paddr, gpm, traps) {
        Err(e) => Err(e),
        Ok(Some(packet)) => Ok(Some(packet)),
        Ok(None) => finish_page_fault(gpm.handle_page_fault(guest_paddr)),
    }
}

} // verus!
