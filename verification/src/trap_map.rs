//! The regions of a guest whose accesses are forwarded to userspace.

use spin::{Mutex, MutexGuard};
use vstd::prelude::*;

verus! {

/// The kinds of trap.
#[derive(Debug, Clone, Copy, PartialEq, Eq, Structural)]
pub enum TrapKind {
    /// A memory region, of whose accesses userspace learns only that they happened.
    GuestTrapBell,
    /// A memory region whose accesses userspace emulates.
    GuestTrapMem,
    /// A range of I/O ports.
    GuestTrapIo,
}

/// A region that is trapped.
#[derive(Debug, Clone, Copy, PartialEq, Eq, Structural)]
pub struct Trap {
    pub kind: TrapKind,
    pub addr: usize,
    pub size: usize,
    /// What the packets of the trap carry.
    pub key: u64,
}

/// Whether traps of the two kinds lie in one address space.
pub open spec fn same_space(a: TrapKind, b: TrapKind) -> bool {
    a is GuestTrapIo <==> b is GuestTrapIo
}

impl Trap {
    /// Whether the region holds `addr`, in the address space that traps of kind `kind` lie in.
    pub open spec fn covers(self, kind: TrapKind, addr: usize) -> bool {
        same_space(self.kind, kind) && self.addr <= addr < self.addr + self.size
    }
}

/// The traps of a guest, oldest first.
#[derive(Debug)]
pub struct TrapMap {
    traps: Vec<Trap>,
}

impl View for TrapMap {
    type V = Seq<Trap>;

    closed spec fn view(&self) -> Seq<Trap> {
        self.traps@
    }
}

/// What a search of `traps` gives: the oldest trap that covers the address, or nothing where no
/// trap does.
pub open spec fn is_found(traps: Seq<Trap>, kind: TrapKind, addr: usize, found: Option<Trap>) -> bool {
    match found {
        Some(trap) => exists|i: int|
            0 <= i < traps.len() && #[trigger] traps[i] == trap && trap.covers(kind, addr)
                && forall|j: int| 0 <= j < i ==> !(#[trigger] traps[j]).covers(kind, addr),
        None => forall|j: int| 0 <= j < traps.len() ==> !(#[trigger] traps[j]).covers(kind, addr),
    }
}

impl TrapMap {
    /// No trap is set.
    pub fn new() -> (r: Self)
        ensures
            r@ == Seq::<Trap>::empty(),
    {
        TrapMap { traps: Vec::new() }
    }

    /// Sets one more trap.
    pub fn push(&mut self, trap: Trap)
        ensures
            final(self)@ == old(self)@.push(trap),
    {
        self.traps.push(trap);
    }

    /// The oldest trap that holds `addr` in the address space of `kind`.
    pub fn find(&self, kind: TrapKind, addr: usize) -> (r: Option<Trap>)
        ensures
            is_found(self@, kind, addr, r),
            r matches Some(trap) ==> self@.contains(trap) && (trap.kind is GuestTrapIo
                <==> kind is GuestTrapIo) && trap.addr <= addr < trap.addr + trap.size,
            r is None ==> forall|i: int|
                0 <= i < self@.len() && ((#[trigger] self@[i]).kind is GuestTrapIo
                    <==> kind is GuestTrapIo) ==> !(self@[i].addr <= addr < self@[i].addr
                    + self@[i].size),
    {
        let mut i: usize = 0;
        while i < self.traps.len()
            invariant
                i <= self@.len(),
                forall|j: int| 0 <= j < i ==> !(#[trigger] self@[j]).covers(kind, addr),
            decreases self@.len() - i,
        {
            let trap: Trap = self.traps[i];
            let io: bool = matches!(kind, TrapKind::GuestTrapIo);
            let trap_io: bool = matches!(trap.kind, TrapKind::GuestTrapIo);
            if io == trap_io && trap.addr <= addr && addr - trap.addr < trap.size {
                assert(self@[i as int] == trap);
                return Some(trap);
            }
            i += 1;
        }
        None
    }
}

/// A search has one outcome.
pub proof fn law_search_is_determined(
    traps: Seq<Trap>,
    kind: TrapKind,
    addr: usize,
    a: Option<Trap>,
    b: Option<Trap>,
)
    requires
        is_found(traps, kind, addr, a),
        is_found(traps, kind, addr, b),
    ensures
        a == b,
{
    if a is Some && b is Some {
        let i = choose|i: int|
            0 <= i < traps.len() && #[trigger] traps[i] == a->0 && a->0.covers(kind, addr)
                && forall|j: int| 0 <= j < i ==> !(#[trigger] traps[j]).covers(kind, addr);
        let k = choose|i: int|
            0 <= i < traps.len() && #[trigger] traps[i] == b->0 && b->0.covers(kind, addr)
                && forall|j: int| 0 <= j < i ==> !(#[trigger] traps[j]).covers(kind, addr);
        assert(traps[i].covers(kind, addr) && traps[k].covers(kind, addr));
    }
}

/// The mutex of the `spin` crate.
#[verifier::external_type_specification]
#[verifier::external_body]
#[verifier::reject_recursive_types(T)]
#[verifier::reject_recursive_types(R)]
pub struct ExMutex<T: ?Sized, R>(spin::mutex::Mutex<T, R>);

/// The guard of a locked mutex of the `spin` crate.
#[verifier::external_type_specification]
#[verifier::external_body]
#[verifier::reject_recursive_types(T)]
pub struct ExMutexGuard<'a, T: 'a + ?Sized>(spin::MutexGuard<'a, T>);

/// How a mutex of the `spin` crate waits.
#[verifier::external_type_specification]
#[verifier::external_body]
pub struct ExSpin(spin::Spin);

/// Calls `spin::Mutex::lock`, which waits until no one else holds the lock. Trusted: nothing. What
/// the guard gives access to depends on who held the lock before.
#[verifier::external_body]
fn lock_traps<'a>(traps: &'a Mutex<TrapMap>) -> (r: MutexGuard<'a, TrapMap>)
{
    traps.lock()
}

/// Calls `spin::MutexGuard::deref`, which gives access to what the lock protects. Trusted: nothing.
#[verifier::external_body]
fn locked_traps<'a>(guard: &'a MutexGuard<'_, TrapMap>) -> (r: &'a TrapMap)
{
    std::ops::Deref::deref(guard)
}

/// That `found` is the outcome of a search of the traps that locking the mutex can give access to.
pub closed spec fn may_find(
    traps: &Mutex<TrapMap>,
    kind: TrapKind,
    addr: usize,
    found: Option<Trap>,
) -> bool {
    exists|guard: MutexGuard<TrapMap>, map: &TrapMap|
        {
            &&& #[trigger] call_ensures(lock_traps, (traps,), guard)
            &&& #[trigger] call_ensures(locked_traps, (&guard,), map)
            &&& is_found(map@, kind, addr, found)
        }
}

/// That a search of the traps that locking the mutex can give access to can find a trap.
pub open spec fn may_hit(traps: &Mutex<TrapMap>, kind: TrapKind, addr: usize) -> bool {
    exists|trap: Trap| may_find(traps, kind, addr, Some(trap))
}

/// Locks the traps, and searches them.
pub fn find_trap(traps: &Mutex<TrapMap>, kind: TrapKind, addr: usize) -> (r: Option<Trap>)
    ensures
        may_find(traps, kind, addr, r),
        r is Some ==> may_hit(traps, kind, addr),
{
    let guard = lock_traps(traps);
    let map: &TrapMap = locked_traps(&guard);
    let found: Option<Trap> = map.find(kind, addr);
    assert(found is Some ==> may_find(traps, kind, addr, Some(found->Some_0)));
    found
}

/// Whatever locking the traps gives access to, a trap that is found holds the address that was
/// searched for, and lies in the address space that was searched.
pub proof fn law_found_trap_holds_address(
    traps: &Mutex<TrapMap>,
    kind: TrapKind,
    addr: usize,
    trap: Trap,
)
    requires
        may_find(traps, kind, addr, Some(trap)),
    ensures
        trap.addr <= addr < trap.addr + trap.size,
        trap.kind is GuestTrapIo <==> kind is GuestTrapIo,
{
}

/// A search through the mutex is a search of a map that locking this very mutex gives access to. It
/// finds the oldest trap that holds the address, and nothing only if no trap holds it.
proof fn law_search_is_of_the_locked_map(
    traps: &Mutex<TrapMap>,
    kind: TrapKind,
    addr: usize,
    found: Option<Trap>,
)
    requires
        may_find(traps, kind, addr, found),
    ensures
        exists|guard: MutexGuard<TrapMap>, map: &TrapMap|
            {
                &&& #[trigger] call_ensures(lock_traps, (traps,), guard)
                &&& #[trigger] call_ensures(locked_traps, (&guard,), map)
                &&& found is None ==> forall|j: int|
                    0 <= j < map.traps@.len() && ((#[trigger] map.traps@[j]).kind is GuestTrapIo
                        <==> kind is GuestTrapIo) ==> !(map.traps@[j].addr <= addr
                        < map.traps@[j].addr + map.traps@[j].size)
                &&& found matches Some(trap) ==> exists|i: int|
                    {
                        &&& 0 <= i < map.traps@.len()
                        &&& #[trigger] map.traps@[i] == trap
                        &&& trap.kind is GuestTrapIo <==> kind is GuestTrapIo
                        &&& trap.addr <= addr < trap.addr + trap.size
                        &&& forall|j: int|
                            0 <= j < i && ((#[trigger] map.traps@[j]).kind is GuestTrapIo
                                <==> kind is GuestTrapIo) ==> !(map.traps@[j].addr <= addr
                                < map.traps@[j].addr + map.traps@[j].size)
                    }
            },
{
    let (guard, map) = choose|guard: MutexGuard<TrapMap>, map: &TrapMap|
        {
            &&& #[trigger] call_ensures(lock_traps, (traps,), guard)
            &&& #[trigger] call_ensures(locked_traps, (&guard,), map)
            &&& is_found(map@, kind, addr, found)
        };
    assert forall|j: int| 0 <= j < map.traps@.len() && !(#[trigger] map@[j]).covers(kind, addr)
        && (map.traps@[j].kind is GuestTrapIo <==> kind is GuestTrapIo) implies !(
    map.traps@[j].addr <= addr < map.traps@[j].addr + map.traps@[j].size) by {}
}

} // verus!
