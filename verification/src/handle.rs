//! Ownership of a handle that the service control manager issued.

use vstd::prelude::*;

verus! {

/// Owns one handle of the service control manager, for a connection or for a
/// service, and sees to it that the handle is closed once and no more.
///
/// The guard does not close the handle itself. Its owner calls
/// [`ScHandle::release`] when it is done, at the latest when it is torn
/// down, and closes what that call hands out.
#[derive(Debug, PartialEq, Eq, Hash)]
pub struct ScHandle {
    raw: usize,
    released: bool,
}

impl ScHandle {
    /// A guard never holds the null handle.
    #[verifier::type_invariant]
    pub closed spec fn well_formed(&self) -> bool {
        self.raw != 0
    }

    /// The handle that the guard was made for.
    pub closed spec fn raw(&self) -> usize {
        self.raw
    }

    /// Whether the handle has been handed out for closing.
    pub closed spec fn released(&self) -> bool {
        self.released
    }

    /// The guard after a call of [`ScHandle::release`].
    pub closed spec fn after_release(self) -> ScHandle {
        ScHandle { raw: self.raw, released: true }
    }

    /// What a call of [`ScHandle::release`] hands out for closing.
    pub open spec fn release_action(self) -> Option<usize> {
        if self.released() {
            None
        } else {
            Some(self.raw())
        }
    }

    /// How many handles `calls` successive calls of [`ScHandle::release`]
    /// hand out for closing.
    pub open spec fn closes_issued(self, calls: nat) -> nat
        decreases calls,
    {
        if calls == 0 {
            0
        } else {
            (if self.release_action() is Some {
                1nat
            } else {
                0nat
            }) + self.after_release().closes_issued((calls - 1) as nat)
        }
    }

    /// Takes ownership of a handle that a successful call returned.
    pub fn new(raw: usize) -> (guard: ScHandle)
        requires
            raw != 0,
        ensures
            guard.raw() == raw,
            !guard.released(),
            guard.well_formed(),
    {
        ScHandle { raw, released: false }
    }

    /// The handle, for passing into further calls. A handle is valid only
    /// until it is released: after that it must not be asked for.
    pub fn raw_handle(&self) -> (raw: usize)
        requires
            !self.released(),
        ensures
            raw == self.raw(),
            raw != 0,
    {
        proof {
            use_type_invariant(self);
        }
        self.raw
    }

    /// Whether the handle has been handed out for closing.
    pub fn is_released(&self) -> (released: bool)
        ensures
            released == self.released(),
    {
        self.released
    }

    /// Hands out the handle for closing, the first time it is called, and
    /// nothing from then on.
    pub fn release(&mut self) -> (action: Option<usize>)
        ensures
            action == old(self).release_action(),
            *final(self) == old(self).after_release(),
            final(self).released(),
            final(self).raw() == old(self).raw(),
    {
        proof {
            use_type_invariant(&*self);
        }
        if self.released {
            None
        } else {
            self.released = true;
            Some(self.raw)
        }
    }

    /// A released guard hands out nothing more, however often it is asked.
    pub proof fn lemma_released_stays_closed(self, calls: nat)
        requires
            self.released(),
        ensures
            self.closes_issued(calls) == 0,
        decreases calls,
    {
        if calls > 0 {
            self.after_release().lemma_released_stays_closed((calls - 1) as nat);
        }
    }

    /// Over the lifetime of a guard its handle is handed out for closing
    /// exactly once: by the first call of [`ScHandle::release`], whether
    /// that comes from an explicit close, from an error path or from the
    /// owner's teardown, and by none of the calls that follow.
    pub proof fn lemma_closed_exactly_once(self, calls: nat)
        requires
            !self.released(),
            calls >= 1,
        ensures
            self.release_action() == Some(self.raw()),
            self.closes_issued(calls) == 1,
    {
        self.after_release().lemma_released_stays_closed((calls - 1) as nat);
    }
}

} // verus!
