//! Bookkeeping of interrupted requests.
//!
//! The kernel may cancel a pending request by sending INTERRUPT with its
//! unique id. A handler registers interest in the cancellation of its
//! request; the table makes sure that each registered request observes a
//! cancellation exactly once, whether the INTERRUPT arrives before or after
//! the registration.
use std::collections::{HashMap, HashSet};
use vstd::prelude::*;

verus! {

broadcast use vstd::std_specs::hash::group_hash_axioms;

/// The plain contents of an `InterruptTable`.
pub struct InterruptState {
    /// Registered requests; the value is whether their cancellation was delivered.
    pub waiting: Map<u64, bool>,
    /// Requests interrupted before their handler registered.
    pub early: Set<u64>,
}

/// The table after INTERRUPT for `u`, and whether a registered handler is to
/// be signalled now.
pub open spec fn after_interrupt(t: InterruptState, u: u64) -> (InterruptState, bool) {
    if t.waiting.contains_key(u) {
        if t.waiting[u] {
            (t, false)
        } else {
            (InterruptState { waiting: t.waiting.insert(u, true), early: t.early }, true)
        }
    } else {
        (InterruptState { waiting: t.waiting, early: t.early.insert(u) }, false)
    }
}

/// The table after the handler of `u` registers, and whether the request was
/// already interrupted (its cancellation is then delivered at once).
pub open spec fn after_register(t: InterruptState, u: u64) -> (InterruptState, bool) {
    if t.waiting.contains_key(u) {
        (t, false)
    } else if t.early.contains(u) {
        (InterruptState { waiting: t.waiting.insert(u, true), early: t.early.remove(u) }, true)
    } else {
        (InterruptState { waiting: t.waiting.insert(u, false), early: t.early }, false)
    }
}

/// The table after request `u` was answered: it is forgotten.
pub open spec fn after_finish(t: InterruptState, u: u64) -> InterruptState {
    InterruptState { waiting: t.waiting.remove(u), early: t.early.remove(u) }
}

/// Pending interrupt signals, keyed by request unique id.
#[derive(Debug)]
pub struct InterruptTable {
    waiting: HashMap<u64, bool>,
    early: HashSet<u64>,
}

impl View for InterruptTable {
    type V = InterruptState;

    closed spec fn view(&self) -> InterruptState {
        InterruptState { waiting: self.waiting@, early: self.early@ }
    }
}

impl InterruptTable {
    /// An empty table.
    pub fn new() -> (r: Self)
        ensures
            r@.waiting == Map::<u64, bool>::empty(),
            r@.early == Set::<u64>::empty(),
    {
        InterruptTable { waiting: HashMap::new(), early: HashSet::new() }
    }

    /// Record INTERRUPT for `unique`. Returns whether the registered handler of
    /// `unique` is to be signalled now; an interrupt of a request whose
    /// handler has not registered yet is remembered for its registration.
    pub fn interrupt(&mut self, unique: u64) -> (r: bool)
        ensures
            (final(self)@, r) == after_interrupt(old(self)@, unique),
    {
        let state: Option<bool> = match self.waiting.get(&unique) {
            Some(fired) => Some(*fired),
            None => None,
        };
        match state {
            Some(true) => false,
            Some(false) => {
                self.waiting.insert(unique, true);
                true
            },
            None => {
                self.early.insert(unique);
                false
            },
        }
    }

    /// Register interest in the cancellation of `unique`. Returns whether the
    /// request was interrupted already; its cancellation then counts as
    /// delivered by this call.
    pub fn register(&mut self, unique: u64) -> (r: bool)
        ensures
            (final(self)@, r) == after_register(old(self)@, unique),
    {
        if self.waiting.contains_key(&unique) {
            false
        } else if self.early.remove(&unique) {
            self.waiting.insert(unique, true);
            true
        } else {
            assert(self.early@ =~= old(self).early@);
            self.waiting.insert(unique, false);
            false
        }
    }

    /// Forget `unique` once its request was answered.
    pub fn finish(&mut self, unique: u64)
        ensures
            final(self)@ == after_finish(old(self)@, unique),
    {
        self.waiting.remove(&unique);
        self.early.remove(&unique);
    }
}

/// A handler that registers before its request is interrupted observes the
/// cancellation exactly once: the interrupt signals it, and a repeated
/// interrupt does not.
pub proof fn lemma_register_then_interrupt(t: InterruptState, u: u64)
    requires
        !t.waiting.contains_key(u),
        !t.early.contains(u),
    ensures
        !after_register(t, u).1,
        after_interrupt(after_register(t, u).0, u).1,
        !after_interrupt(after_interrupt(after_register(t, u).0, u).0, u).1,
        !after_register(after_interrupt(after_register(t, u).0, u).0, u).1,
{
}

/// An interrupt that arrives before the handler registers is observed at the
/// registration, and only there: a later interrupt does not signal again.
pub proof fn lemma_interrupt_then_register(t: InterruptState, u: u64)
    requires
        !t.waiting.contains_key(u),
    ensures
        !after_interrupt(t, u).1,
        after_register(after_interrupt(t, u).0, u).1,
        !after_interrupt(after_register(after_interrupt(t, u).0, u).0, u).1,
{
}

/// Once a cancellation was delivered, neither an interrupt nor a registration
/// delivers it again.
pub proof fn lemma_delivered_once(t: InterruptState, u: u64)
    requires
        t.waiting.contains_key(u),
        t.waiting[u],
    ensures
        !after_interrupt(t, u).1,
        !after_register(t, u).1,
        after_interrupt(t, u).0 == t,
        after_register(t, u).0 == t,
{
}

} // verus!
