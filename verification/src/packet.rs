//! The packets by which an exit is forwarded to userspace.

use crate::consts::X86_MAX_INST_LEN;
use vstd::prelude::*;

verus! {

/// An access of the guest to a trapped I/O port.
#[derive(Debug, Clone, Copy, PartialEq, Eq)]
pub struct IoPacket {
    pub port: u16,
    /// The width of the access in bytes.
    pub access_size: u8,
    pub input: bool,
    pub string: bool,
    pub repeat: bool,
    /// The bytes that the guest writes, least significant first.
    pub data: [u8; 4],
}

/// An access of the guest to a trapped memory region.
#[derive(Debug, Clone, Copy, PartialEq, Eq)]
pub struct MmioPacket {
    /// The guest physical address that was accessed.
    pub addr: u64,
    pub inst_len: u8,
    /// The default width of an operand in bytes.
    pub default_operand_size: u8,
    /// The instruction that made the access; the bytes past `inst_len` are zero.
    pub inst_buf: [u8; 15],
}

impl MmioPacket {
    /// The instruction that made the access.
    pub open spec fn instruction(&self) -> Seq<u8> {
        self.inst_buf@.take(self.inst_len as int)
    }

    /// The length of the instruction is in bounds, and nothing stands behind it.
    pub open spec fn wf(&self) -> bool {
        &&& self.inst_len <= X86_MAX_INST_LEN
        &&& forall|i: int| self.inst_len <= i < 15 ==> self.inst_buf@[i] == 0
    }
}

/// What a packet forwards.
#[derive(Debug, Clone, Copy, PartialEq, Eq)]
pub enum RvmExitPacketInner {
    Io(IoPacket),
    Mmio(MmioPacket),
}

/// An exit that userspace has to handle.
#[derive(Debug, Clone, Copy, PartialEq, Eq)]
pub struct RvmExitPacket {
    /// The key of the trap that the access hit.
    pub key: u64,
    pub inner: RvmExitPacketInner,
}

impl RvmExitPacket {
    pub fn new_io_packet(key: u64, packet: IoPacket) -> (r: Self)
        ensures
            r.key == key,
            r.inner == RvmExitPacketInner::Io(packet),
    {
        RvmExitPacket { key, inner: RvmExitPacketInner::Io(packet) }
    }

    pub fn new_mmio_packet(key: u64, packet: MmioPacket) -> (r: Self)
        ensures
            r.key == key,
            r.inner == RvmExitPacketInner::Mmio(packet),
    {
        RvmExitPacket { key, inner: RvmExitPacketInner::Mmio(packet) }
    }
}

} // verus!
