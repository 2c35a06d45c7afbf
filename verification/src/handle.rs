//! The ownership guard for a foreign, reference-counted resource.
//!
//! One guard stands for one logical reference.  Exactly one of two terminal
//! actions must occur: exactly-once release, or permanent disarming after
//! the reference was handed off to the foreign side.  The guard is a
//! three-state machine; no transition returns to the initial state.

use vstd::prelude::*;

verus! {

/// Where a guard stands in its life cycle.
#[derive(Clone, Copy, PartialEq, Eq, Structural, Debug)]
pub enum HandleState {
    /// The single reference is still owed a release.  Initial.
    Unreleased,
    /// The single reference was released here.  Terminal.
    Released,
    /// The single reference was handed off to the foreign side; the local
    /// destructor owes nothing.  Terminal.
    Disarmed,
}

/// The state after asking the guard to settle: from the initial state the
/// release is performed and the guard becomes released; the two terminal
/// states stay as they are.
pub open spec fn release_transition(s: HandleState) -> HandleState {
    if s == HandleState::Unreleased {
        HandleState::Released
    } else {
        s
    }
}

/// Whether asking the guard to settle in state `s` performs a release.
pub open spec fn release_performed(s: HandleState) -> bool {
    s == HandleState::Unreleased
}

/// The state after a hand-off: from the initial state the guard becomes
/// disarmed; the two terminal states stay as they are.
pub open spec fn disarm_transition(s: HandleState) -> HandleState {
    if s == HandleState::Unreleased {
        HandleState::Disarmed
    } else {
        s
    }
}

/// A disarmable ownership guard around a non-null foreign pointer to a
/// reference-counted resource, held as its plain address.
///
/// The guard does not perform the foreign release itself: [`Self::release`]
/// answers whether the caller must perform it now, and its contract makes
/// a second `true` answer impossible.
pub struct ExternalHandle {
    addr: usize,
    state: HandleState,
}

impl ExternalHandle {
    /// The address of the wrapped foreign pointer.
    pub closed spec fn spec_addr(&self) -> usize {
        self.addr
    }

    /// Where the guard stands in its life cycle.
    pub closed spec fn spec_state(&self) -> HandleState {
        self.state
    }

    /// The wrapped pointer is non-null.
    pub open spec fn wf(&self) -> bool {
        self.spec_addr() != 0
    }

    /// Wrap a non-null pointer returned by a foreign factory call that
    /// reported success.  A null pointer paired with a reported success is
    /// a broken foreign contract, not a typed error: callers must rule it
    /// out before constructing the guard.
    pub fn new(addr: usize) -> (h: ExternalHandle)
        requires
            addr != 0,
        ensures
            h.wf(),
            h.spec_addr() == addr,
            h.spec_state() == HandleState::Unreleased,
    {
        ExternalHandle { addr, state: HandleState::Unreleased }
    }

    /// The address of the wrapped foreign pointer.
    pub fn addr(&self) -> (a: usize)
        ensures
            a == self.spec_addr(),
    {
        self.addr
    }

    /// Where the guard stands in its life cycle.
    pub fn state(&self) -> (s: HandleState)
        ensures
            s == self.spec_state(),
    {
        self.state
    }

    /// Hand the single reference off to the foreign side: the guard is
    /// permanently disarmed, and no release will ever be owed again.
    ///
    /// Only a guard that still owes its release can hand it off.
    pub fn disarm(&mut self)
        requires
            old(self).spec_state() == HandleState::Unreleased,
        ensures
            final(self).spec_addr() == old(self).spec_addr(),
            final(self).spec_state() == disarm_transition(old(self).spec_state()),
    {
        self.state = HandleState::Disarmed;
    }

    /// Settle the guard on the way out: the answer says whether the caller
    /// must perform the single foreign release now.  It is `true` at most
    /// once over the guard's whole life, and never after a hand-off.
    pub fn release(&mut self) -> (perform: bool)
        ensures
            final(self).spec_addr() == old(self).spec_addr(),
            final(self).spec_state() == release_transition(old(self).spec_state()),
            perform == release_performed(old(self).spec_state()),
    {
        match self.state {
            HandleState::Unreleased => {
                self.state = HandleState::Released;
                true
            },
            HandleState::Released => false,
            HandleState::Disarmed => false,
        }
    }
}

/// Law: no transition returns to the initial state, and the two terminal
/// states are fixed points that never perform a release.
pub proof fn lemma_terminal_states(s: HandleState)
    ensures
        release_transition(s) != HandleState::Unreleased,
        disarm_transition(s) != HandleState::Unreleased,
        s != HandleState::Unreleased ==> release_transition(s) == s,
        s != HandleState::Unreleased ==> disarm_transition(s) == s,
        s != HandleState::Unreleased ==> !release_performed(s),
{
}

/// Law: dropping a guard that was never handed off performs the release
/// exactly once; settling it again performs nothing.
pub proof fn lemma_release_exactly_once(s: HandleState)
    requires
        s == HandleState::Unreleased,
    ensures
        release_performed(s),
        release_transition(s) == HandleState::Released,
        !release_performed(release_transition(s)),
        release_transition(release_transition(s)) == HandleState::Released,
{
}

/// Law: hand-off idempotence.  Construct, hand off, then settle: the single
/// reference is consumed by the hand-off alone, and the settling on drop
/// performs no release, so exactly one release happens in total.
pub proof fn lemma_handoff_single_release(s: HandleState)
    requires
        s == HandleState::Unreleased,
    ensures
        disarm_transition(s) == HandleState::Disarmed,
        !release_performed(disarm_transition(s)),
        release_transition(disarm_transition(s)) == HandleState::Disarmed,
{
}

} // verus!
