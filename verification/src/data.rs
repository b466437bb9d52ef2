//! Locked views of native handles.
use crate::entrypoint::EntryPoints;
use core::ops::Deref;
use vstd::prelude::*;

verus! {

/// The memory of a native handle while it is locked: the address that the lock
/// gave, never null. Handles are to be read through such a view only. The lock
/// is given back by `release`, which consumes the view.
pub struct PointerFromHandle<'a, U: Fn(usize)> {
    ptr: usize,
    handle: usize,
    unlock: &'a U,
}

impl<'a, U: Fn(usize)> PointerFromHandle<'a, U> {
    #[verifier::type_invariant]
    spec fn locked(&self) -> bool {
        &&& self.ptr != 0
        &&& self.unlock.requires((self.handle,))
    }

    /// The address of the locked memory.
    pub closed spec fn address(&self) -> usize {
        self.ptr
    }

    /// The handle that is locked.
    pub closed spec fn handle(&self) -> usize {
        self.handle
    }

    /// The function that gives the lock back.
    pub closed spec fn unlocker(&self) -> &'a U {
        self.unlock
    }

    /// Locks `handle` with the lock function of `ep`, once. A null address
    /// means that the handle is invalid or freed: then there is no view, and
    /// nothing to unlock. Otherwise the view holds the address that the lock
    /// gave, and will unlock this handle with the unlock function of `ep`.
    pub fn new<A, F, L: Fn(usize) -> usize>(
        ep: &'a EntryPoints<A, F, L, U>,
        handle: usize,
    ) -> (r: Option<PointerFromHandle<'a, U>>)
        requires
            ep.lock.requires((handle,)),
            ep.unlock.requires((handle,)),
        ensures
            r is None ==> ep.lock.ensures((handle,), 0usize),
            r is Some ==> r->0.address() != 0,
            r is Some ==> ep.lock.ensures((handle,), r->0.address()),
            r is Some ==> r->0.handle() == handle,
            r is Some ==> r->0.unlocker() == &ep.unlock,
    {
        let ptr: usize = (ep.lock)(handle);
        if ptr == 0 {
            None
        } else {
            Some(PointerFromHandle { ptr, handle, unlock: &ep.unlock })
        }
    }

    /// Ends the view: calls the unlock function on the handle, once.
    pub fn release(self)
        ensures
            self.unlocker().ensures((self.handle(),), ()),
    {
        proof {
            use_type_invariant(&self);
        }
        (self.unlock)(self.handle)
    }
}

impl<'a, U: Fn(usize)> Deref for PointerFromHandle<'a, U> {
    type Target = usize;

    /// The address of the locked memory; never null.
    fn deref(&self) -> (p: &usize)
        ensures
            *p == self.address(),
            *p != 0,
    {
        proof {
            use_type_invariant(self);
        }
        &self.ptr
    }
}

} // verus!
