//! One update phase: the order in which the host binds each record's entity,
//! runs the script on it and clears the binding again.
//!
//! The host does the work; what comes next is decided here. It reports what
//! happened as an [`Event`] and is told the next [`Action`].

use vstd::prelude::*;
use crate::reference::RecordId;

verus! {

/// What the host reports.
#[derive(Clone, Copy, Debug, PartialEq, Eq, Structural)]
pub enum Event {
    /// The host is ready for the next step.
    Ready,
    /// The script that was invoked ran to its end.
    Succeeded,
    /// The script that was invoked raised an error that nothing caught.
    Failed,
}

/// What the host is to do next.
#[derive(Clone, Copy, Debug, PartialEq, Eq, Structural)]
pub enum Action {
    /// Bind this entity as the one being processed and run the script on it.
    Invoke(RecordId),
    /// Clear the binding.
    Release,
    /// Every entity has had its turn and nothing is bound: the store goes
    /// back to the host.
    Finish,
}

/// The state of a phase.
pub struct Phase {
    records: Vec<RecordId>,
    next: usize,
    running: bool,
    failed: usize,
}

/// The mathematical value of a [`Phase`]: the entities of the phase in their
/// order, how many of them have been invoked, the one that is bound now, and
/// how many invocations failed.
pub struct PhaseView {
    pub records: Seq<RecordId>,
    pub invoked: nat,
    pub bound: Option<RecordId>,
    pub failed: nat,
}

impl PhaseView {
    /// The state after `event`, and the action that the event is answered
    /// with. While an entity is bound, whatever is reported ends its turn: the
    /// binding is cleared, and a failure is counted. While none is bound, the
    /// next entity is bound and invoked; after the last the phase finishes.
    pub open spec fn step(self, event: Event) -> (PhaseView, Action) {
        if self.bound.is_some() {
            (
                PhaseView {
                    bound: None,
                    failed: if event == Event::Failed {
                        self.failed + 1
                    } else {
                        self.failed
                    },
                    ..self
                },
                Action::Release,
            )
        } else if self.invoked < self.records.len() {
            let record = self.records[self.invoked as int];
            (
                PhaseView { invoked: self.invoked + 1, bound: Some(record), ..self },
                Action::Invoke(record),
            )
        } else {
            (self, Action::Finish)
        }
    }
}

impl Phase {
    #[verifier::type_invariant]
    spec fn valid(self) -> bool {
        &&& self.next <= self.records@.len()
        &&& self.running ==> self.next > 0
        &&& self.failed + (if self.running { 1int } else { 0int }) <= self.next
    }

    pub closed spec fn view(&self) -> PhaseView {
        PhaseView {
            records: self.records@,
            invoked: self.next as nat,
            bound: if self.running && self.next > 0 {
                Some(self.records@[self.next - 1])
            } else {
                None
            },
            failed: self.failed as nat,
        }
    }

    /// Starts a phase over the entities that are live at its beginning.
    pub fn begin(records: Vec<RecordId>) -> (phase: Phase)
        ensures
            phase@ == (PhaseView { records: records@, invoked: 0, bound: None, failed: 0 }),
    {
        Phase { records, next: 0, running: false, failed: 0 }
    }

    /// The entity that is bound now.
    pub fn bound(&self) -> (record: Option<RecordId>)
        ensures
            record == self@.bound,
    {
        proof {
            use_type_invariant(self);
        }
        if self.running {
            Some(self.records[self.next - 1])
        } else {
            None
        }
    }

    /// How many invocations failed so far.
    pub fn failures(&self) -> (count: usize)
        ensures
            count == self@.failed,
    {
        self.failed
    }

    /// Takes `event` and says what the host is to do next.
    pub fn advance(&mut self, event: Event) -> (action: Action)
        ensures
            (final(self)@, action) == old(self)@.step(event),
    {
        proof {
            use_type_invariant(&*self);
        }
        if self.running {
            self.running = false;
            if event == Event::Failed {
                self.failed = self.failed + 1;
            }
            Action::Release
        } else if self.next < self.records.len() {
            let record = self.records[self.next];
            self.next = self.next + 1;
            self.running = true;
            Action::Invoke(record)
        } else {
            Action::Finish
        }
    }
}

/// Each entity gets its turn, in order, whether or not the turn before it
/// failed: from a state in which nothing is bound and entities are left, the
/// next step invokes the next entity, and whatever is reported of it, the step
/// after clears the binding and leaves the phase ready for the entity after.
pub proof fn lemma_turn(state: PhaseView, outcome: Event)
    requires
        state.bound.is_none(),
        state.invoked < state.records.len(),
    ensures
        state.step(Event::Ready).1 == Action::Invoke(state.records[state.invoked as int]),
        state.step(Event::Ready).0.bound == Some(state.records[state.invoked as int]),
        state.step(Event::Ready).0.step(outcome).1 == Action::Release,
        state.step(Event::Ready).0.step(outcome).0.bound.is_none(),
        state.step(Event::Ready).0.step(outcome).0.invoked == state.invoked + 1,
        state.step(Event::Ready).0.step(outcome).0.records == state.records,
{
}

/// A phase finishes only with nothing bound and every entity invoked.
pub proof fn lemma_finish(state: PhaseView, event: Event)
    requires
        state.step(event).1 == Action::Finish,
    ensures
        state.bound.is_none(),
        state.invoked >= state.records.len(),
        state.step(event).0 == state,
{
}

} // verus!
