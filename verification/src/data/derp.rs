//! The derp counter.

use vstd::prelude::*;
use super::store::{Store, StoreError};
use crate::wire::{Action, Directive};

verus! {

/// Counts derps.
#[derive(Debug, Clone, Copy, PartialEq, Eq, Structural)]
pub struct DerpCounter {
    derps: usize,
}

impl DerpCounter {
    /// The count.
    pub closed spec fn value(&self) -> nat {
        self.derps as nat
    }

    /// A counter that stands at `derps`.
    pub fn of(derps: usize) -> (c: DerpCounter)
        ensures
            c.value() == derps,
    {
        DerpCounter { derps }
    }

    /// The stored counter. A store that never held one answers with a
    /// counter at zero.
    pub fn load(store: &Store) -> (r: Result<DerpCounter, StoreError>)
        requires
            store.wf(),
        ensures
            match r {
                Ok(c) => store@.derps == Some(c.value()),
                Err(e) => e == StoreError::Unreadable && store@.derps is None,
            },
    {
        store.load_derps()
    }

    /// Puts the counter into the store and answers with the action that
    /// writes it out; `otherwise` is what to send if it cannot be written.
    pub fn save(&self, store: &mut Store, otherwise: Directive) -> (a: Action)
        requires
            old(store).wf(),
        ensures
            final(store).wf(),
            final(store)@ == old(store)@.with_derps(self.value()),
            a@ == crate::wire::save_derps_or(self.value(), otherwise@),
    {
        store.put_derps(*self);
        Action::save_derps_or(*self, otherwise)
    }

    /// Counts one more. Past the largest count the counter starts again at
    /// zero.
    pub fn increment(&mut self)
        ensures
            final(self).value() == if old(self).value() == usize::MAX {
                0
            } else {
                old(self).value() + 1
            },
    {
        if self.derps == usize::MAX {
            self.derps = 0;
        } else {
            self.derps = self.derps + 1;
        }
    }

    /// The count.
    pub fn derps(&self) -> (n: usize)
        ensures
            n == self.value(),
    {
        self.derps
    }
}

} // verus!
