//! The memory functions that manage native handles.
use vstd::prelude::*;

verus! {

/// The memory functions as a driver reports them when asked for its entry
/// points: each of the four may be missing.
pub struct TwEntryPoint<A, F, L, U> {
    pub mem_allocate: Option<A>,
    pub mem_free: Option<F>,
    pub mem_lock: Option<L>,
    pub mem_unlock: Option<U>,
}

/// The four memory functions over native handles: `allocate` takes a size and
/// gives a handle, `free` takes a handle, `lock` takes a handle and gives the
/// address of its memory, `unlock` takes a handle. A handle and an address are
/// machine words; zero is the null address.
pub struct EntryPoints<A, F, L, U> {
    pub allocate: A,
    pub free: F,
    pub lock: L,
    pub unlock: U,
}

impl<A, F, L, U> TwEntryPoint<A, F, L, U> {
    /// Whether all four functions are there.
    pub open spec fn is_complete(&self) -> bool {
        &&& self.mem_allocate is Some
        &&& self.mem_free is Some
        &&& self.mem_lock is Some
        &&& self.mem_unlock is Some
    }
}

impl<A, F, L, U> Default for TwEntryPoint<A, F, L, U> {
    /// The structure with no function in it: what a driver is handed to fill in.
    fn default() -> (ep: Self)
        ensures
            ep.mem_allocate is None,
            ep.mem_free is None,
            ep.mem_lock is None,
            ep.mem_unlock is None,
    {
        TwEntryPoint { mem_allocate: None, mem_free: None, mem_lock: None, mem_unlock: None }
    }
}

impl<A, F, L, U> EntryPoints<A, F, L, U> {
    /// Adopts the functions that a driver reported: all four of them, or, where
    /// any is missing, none.
    pub fn from_tw_entrypoint(ep: TwEntryPoint<A, F, L, U>) -> (r: Option<Self>)
        ensures
            r is Some <==> ep.is_complete(),
            r is Some ==> r->0.allocate == ep.mem_allocate->0,
            r is Some ==> r->0.free == ep.mem_free->0,
            r is Some ==> r->0.lock == ep.mem_lock->0,
            r is Some ==> r->0.unlock == ep.mem_unlock->0,
    {
        let TwEntryPoint { mem_allocate, mem_free, mem_lock, mem_unlock } = ep;
        match (mem_allocate, mem_free, mem_lock, mem_unlock) {
            (Some(allocate), Some(free), Some(lock), Some(unlock)) => Some(
                EntryPoints { allocate, free, lock, unlock },
            ),
            _ => None,
        }
    }

    /// The memory functions of the platform, for a manager that reports none.
    /// This library has none of its own on any platform: a host that has them
    /// hands them to the manager session when it opens it.
    pub fn os_default() -> (r: Option<Self>)
        ensures
            r is None,
    {
        None
    }
}

} // verus!
