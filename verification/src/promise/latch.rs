//! A latch that remembers whether it was invoked.
use vstd::prelude::*;

use crate::ident::{is_random_id, label, labelled, random_id};

verus! {

/// Something that stores whether it was invoked, and can be waited for.
///
/// `Waker` is what is told once the latch is invoked.
pub struct Latch<Waker> {
    id: u128,
    invoked: bool,
    waker: Option<Waker>,
}

/// What a [`Latch`] holds.
pub struct LatchState<Waker> {
    pub id: u128,
    pub invoked: bool,
    /// Who waits for the latch.
    pub waker: Option<Waker>,
}

impl<Waker> View for Latch<Waker> {
    type V = LatchState<Waker>;

    closed spec fn view(&self) -> LatchState<Waker> {
        LatchState { id: self.id, invoked: self.invoked, waker: self.waker }
    }
}

impl<Waker> LatchState<Waker> {
    /// The state once the latch was invoked.
    pub open spec fn after_invoke(self) -> Self {
        LatchState { invoked: true, waker: None, ..self }
    }

    /// The state once somebody asked for the latch and left `waker` behind.
    pub open spec fn after_poll(self, waker: Waker) -> Self {
        if self.invoked {
            self
        } else {
            LatchState { waker: Some(waker), ..self }
        }
    }
}

impl<Waker> Latch<Waker> {
    /// Makes a latch that was not invoked.
    pub fn new() -> (latch: Self)
        ensures
            !latch@.invoked,
            latch@.waker is None,
            is_random_id(latch@.id),
    {
        Latch { id: random_id(), invoked: false, waker: None }
    }

    /// Makes a latch that counts as invoked from the start.
    pub fn new_immediate() -> (latch: Self)
        ensures
            latch@.invoked,
            latch@.waker is None,
            is_random_id(latch@.id),
    {
        Latch { id: random_id(), invoked: true, waker: None }
    }

    /// What tells the latch apart from others.
    pub fn id(&self) -> (id: u128)
        ensures
            id == self@.id,
    {
        self.id
    }

    /// The name under which the latch goes.
    pub fn text(&self) -> (text: String)
        ensures
            text@ == labelled("Latch"@, self@.id),
    {
        label("Latch", self.id)
    }

    /// Whether the latch was invoked.
    pub fn invoked(&self) -> (invoked: bool)
        ensures
            invoked == self@.invoked,
    {
        self.invoked
    }

    /// Invokes the latch and gives back whom to wake.
    pub fn invoke(&mut self) -> (waker: Option<Waker>)
        ensures
            waker == old(self)@.waker,
            final(self)@ == old(self)@.after_invoke(),
    {
        self.invoked = true;
        self.waker.take()
    }

    /// Asks whether the latch was invoked. Where it was not, `waker` is kept, in place of an
    /// earlier one, to be woken when it is.
    pub fn poll(&mut self, waker: Waker) -> (ready: bool)
        ensures
            ready == old(self)@.invoked,
            final(self)@ == old(self)@.after_poll(waker),
    {
        if self.invoked {
            true
        } else {
            self.waker = Some(waker);
            false
        }
    }
}

impl<Waker> Default for Latch<Waker> {
    fn default() -> (latch: Self)
        ensures
            !latch@.invoked,
            latch@.waker is None,
            is_random_id(latch@.id),
    {
        Latch::new()
    }
}

impl<Waker> PartialEq for Latch<Waker> {
    fn eq(&self, other: &Self) -> (same: bool) {
        self.id == other.id
    }
}

impl<Waker> vstd::std_specs::cmp::PartialEqSpecImpl for Latch<Waker> {
    open spec fn obeys_eq_spec() -> bool {
        true
    }

    open spec fn eq_spec(&self, other: &Self) -> bool {
        self@.id == other@.id
    }
}

/// Once invoked, a latch stays invoked, however often it is invoked or asked again.
pub proof fn law_stays_invoked<Waker>(latch: LatchState<Waker>, waker: Waker)
    requires
        latch.invoked,
    ensures
        latch.after_invoke().invoked,
        latch.after_poll(waker) == latch,
{
}

/// Who waits for a latch is woken by the next invocation, and then finds it invoked.
pub proof fn law_waiting_is_woken<Waker>(latch: LatchState<Waker>, waker: Waker)
    requires
        !latch.invoked,
    ensures
        latch.after_poll(waker).waker == Some(waker),
        !latch.after_poll(waker).invoked,
        latch.after_poll(waker).after_invoke().invoked,
        latch.after_poll(waker).after_invoke().waker is None,
{
}

} // verus!
