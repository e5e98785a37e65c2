//! The guest physical memory that exit handling reads from.

use crate::error::RvmResult;
use vstd::prelude::*;

verus! {

/// The guest physical memory set of a guest.
///
/// The memory can change between two calls, so what a call does is a relation and not a function of
/// its arguments. An implementation may choose the relations; those that it inherits allow
/// anything.
pub trait GuestPhysMemorySetTrait {
    /// That a read at `gpaddr` can turn a buffer of `before` into one of `after` and return `r`.
    open spec fn may_read(
        &self,
        gpaddr: usize,
        before: Seq<u8>,
        after: Seq<u8>,
        r: RvmResult<usize>,
    ) -> bool {
        true
    }

    /// That a fault at `gpaddr` can be answered with `r`.
    open spec fn may_answer_fault(&self, gpaddr: usize, r: RvmResult<()>) -> bool {
        true
    }

    /// Reads from the guest's memory into `buf`, whose length stays, as that of every slice.
    fn read_memory(&self, gpaddr: usize, buf: &mut [u8]) -> (r: RvmResult<usize>)
        ensures
            final(buf)@.len() == old(buf)@.len(),
            self.may_read(gpaddr, old(buf)@, final(buf)@, r),
    ;

    /// Called when the guest accessed an address that is not mapped.
    fn handle_page_fault(&self, gpaddr: usize) -> (r: RvmResult<()>)
        ensures
            self.may_answer_fault(gpaddr, r),
    ;
}

} // verus!
