//! Shared session state: the record buffer, the active flag and the session
//! label, mutated only through operations that keep the flag check and the
//! buffer update together.

use vstd::prelude::*;
use crate::record::{EventRecord, RecordModel, views_of};

verus! {

/// The mathematical shape of the shared session state.
pub struct StateModel {
    pub active: bool,
    pub label: Seq<char>,
    pub buffer: Seq<RecordModel>,
}

/// The state a fresh process starts in: inactive, unlabeled, empty buffer.
pub open spec fn initial_model() -> StateModel {
    StateModel { active: false, label: Seq::empty(), buffer: Seq::empty() }
}

/// What `reset` leaves behind: whatever the prior state held, the buffer is
/// cleared, the new label installed and the session made active.
pub open spec fn reset_model(prior: StateModel, label: Seq<char>) -> StateModel {
    StateModel { active: true, label, buffer: Seq::empty() }
}

/// What `push` does: the record is appended only while the session is
/// active; otherwise the state is untouched.
pub open spec fn push_model(m: StateModel, r: RecordModel) -> StateModel {
    if m.active {
        StateModel { active: m.active, label: m.label, buffer: m.buffer.push(r) }
    } else {
        m
    }
}

/// The state after a drain: inactive, buffer empty, label kept.
pub open spec fn drained_model(m: StateModel) -> StateModel {
    StateModel { active: false, label: m.label, buffer: Seq::empty() }
}

/// What a drain hands out: the whole buffered sequence.
pub open spec fn drain_output(m: StateModel) -> Seq<RecordModel> {
    m.buffer
}

/// Draining is idempotent: the drain after a drain hands out nothing, so of
/// two successive drains at most the first yields a non-empty batch.
pub proof fn lemma_drain_idempotent(m: StateModel)
    ensures
        drain_output(drained_model(m)) == Seq::<RecordModel>::empty(),
        drained_model(drained_model(m)) == drained_model(m),
{
}

/// The buffer, active flag and label every thread of the session shares,
/// reused from one session to the next.
pub struct SessionState {
    active: bool,
    label: String,
    buffer: Vec<EventRecord>,
}

impl View for SessionState {
    type V = StateModel;

    closed spec fn view(&self) -> StateModel {
        StateModel { active: self.active, label: self.label@, buffer: views_of(self.buffer@) }
    }
}

impl SessionState {
    /// Creates the state a process starts with.
    pub fn new() -> (state: SessionState)
        ensures
            state@ == initial_model(),
    {
        let state = SessionState { active: false, label: String::new(), buffer: Vec::new() };
        proof {
            assert(state@.buffer =~= initial_model().buffer);
            assert(state@ =~= initial_model());
        }
        state
    }

    /// Clears the buffer, installs the label and marks the session active,
    /// in one step, before any listener or timer of the new session runs.
    pub fn reset(&mut self, label: String)
        ensures
            final(self)@ == reset_model(old(self)@, label@),
    {
        self.buffer.clear();
        self.label = label;
        self.active = true;
        proof {
            assert(self@.buffer =~= reset_model(old(self)@, label@).buffer);
        }
    }

    /// Appends the record, but only while the session is active: the flag
    /// check and the append are one operation, so a record arriving after
    /// termination was requested is discarded.
    pub fn push(&mut self, record: EventRecord)
        ensures
            final(self)@ == push_model(old(self)@, record@),
    {
        if self.active {
            let ghost before = self.buffer@;
            self.buffer.push(record);
            proof {
                assert(views_of(self.buffer@) =~= views_of(before).push(record@));
            }
        }
    }

    /// Atomically deactivates the session and hands out the whole buffer,
    /// leaving it empty: at most one caller ever observes the final batch,
    /// and a second drain yields nothing.
    pub fn deactivate_and_drain(&mut self) -> (drained: Vec<EventRecord>)
        ensures
            final(self)@ == drained_model(old(self)@),
            views_of(drained@) == drain_output(old(self)@),
    {
        self.active = false;
        let mut drained: Vec<EventRecord> = Vec::new();
        core::mem::swap(&mut drained, &mut self.buffer);
        proof {
            assert(self@.buffer =~= drained_model(old(self)@).buffer);
        }
        drained
    }

    /// A snapshot of the active flag.
    pub fn is_active(&self) -> (active: bool)
        ensures
            active == self@.active,
    {
        self.active
    }

    /// The label of the current (or most recent) session.
    pub fn label(&self) -> (label: &String)
        ensures
            label@ == self@.label,
    {
        &self.label
    }
}

} // verus!
