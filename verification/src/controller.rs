//! The session controller: the Idle/Active state machine that starts and
//! stops sessions, the per-callback capture step that feeds the buffer, and
//! the two termination paths (operator stop, timeout firing) that both end in
//! the same idempotent drain.

use vstd::prelude::*;
use crate::record::{EventRecord, RawEvent, RawModel, RecordModel, normalize, normalize_model, views_of};
use crate::state::{
    SessionState, StateModel, drain_output, drained_model, initial_model, push_model, reset_model,
};

verus! {

/// Why a `start_session` call was refused, leaving the controller untouched.
#[derive(Clone, Copy, PartialEq, Eq, Structural, Debug)]
pub enum StartRefusal {
    /// A session is already running: at most one session at a time.
    AlreadyActive,
    /// The label was empty: a session must be named.
    EmptyLabel,
}

/// One capture step, as the listener callback performs it: while the session
/// is active, a recognized notification is normalized under the session's
/// label and buffered; an unsupported one, or any notification observed while
/// inactive, leaves the state untouched.
pub open spec fn event_step(m: StateModel, raw: RawModel, ts: Seq<char>) -> StateModel {
    if !m.active {
        m
    } else {
        match normalize_model(raw, m.label, ts) {
            Some(r) => push_model(m, r),
            None => m,
        }
    }
}

/// The state after a whole sequence of capture steps, each a raw
/// notification paired with the timestamp it was observed at.
pub open spec fn run_events(m: StateModel, events: Seq<(RawModel, Seq<char>)>) -> StateModel
    decreases events.len(),
{
    if events.len() == 0 {
        m
    } else {
        run_events(event_step(m, events[0].0, events[0].1), events.drop_first())
    }
}

/// The records a session labeled `label` accepts out of a sequence of raw
/// notifications: the normalized form of each recognized one, in arrival
/// order.
pub open spec fn session_records(label: Seq<char>, events: Seq<(RawModel, Seq<char>)>) -> Seq<
    RecordModel,
>
    decreases events.len(),
{
    if events.len() == 0 {
        Seq::empty()
    } else {
        match normalize_model(events[0].0, label, events[0].1) {
            Some(r) => seq![r] + session_records(label, events.drop_first()),
            None => session_records(label, events.drop_first()),
        }
    }
}

/// While a session is active, capture steps keep it active, keep its label,
/// and extend the buffer by exactly the records the session accepts.
pub proof fn lemma_run_events_extends(m: StateModel, events: Seq<(RawModel, Seq<char>)>)
    requires
        m.active,
    ensures
        run_events(m, events).active,
        run_events(m, events).label == m.label,
        run_events(m, events).buffer == m.buffer + session_records(m.label, events),
    decreases events.len(),
{
    if events.len() == 0 {
        assert(run_events(m, events).buffer =~= m.buffer + session_records(m.label, events));
    } else {
        let next = event_step(m, events[0].0, events[0].1);
        lemma_run_events_extends(next, events.drop_first());
        match normalize_model(events[0].0, m.label, events[0].1) {
            Some(r) => {
                assert(next.buffer == m.buffer.push(r));
                assert(run_events(m, events).buffer =~= m.buffer + session_records(
                    m.label,
                    events,
                ));
            },
            None => {
                assert(run_events(m, events).buffer =~= m.buffer + session_records(
                    m.label,
                    events,
                ));
            },
        }
    }
}

/// Buffer clearing at reset is authoritative: whatever a prior state had
/// buffered, a session drained after a reset and any sequence of capture
/// steps hands out exactly the records accepted during that session, and
/// nothing older.
pub proof fn lemma_reset_isolates_session(
    prior: StateModel,
    label: Seq<char>,
    events: Seq<(RawModel, Seq<char>)>,
)
    ensures
        drain_output(run_events(reset_model(prior, label), events)) == session_records(
            label,
            events,
        ),
{
    lemma_run_events_extends(reset_model(prior, label), events);
    assert(Seq::<RecordModel>::empty() + session_records(label, events) =~= session_records(
        label,
        events,
    ));
}

/// Every record a session accepts carries that session's label as its task
/// name.
pub proof fn lemma_records_carry_label(label: Seq<char>, events: Seq<(RawModel, Seq<char>)>)
    ensures
        forall|i: int|
            0 <= i < session_records(label, events).len() ==> #[trigger] session_records(
                label,
                events,
            )[i].task_name == label,
    decreases events.len(),
{
    if events.len() > 0 {
        lemma_records_carry_label(label, events.drop_first());
    }
}

/// The Idle/Active state machine around the shared session state. The
/// blocking subscription to the input hook and the timer that sleeps out the
/// fixed session duration live with the caller; the controller makes every
/// decision: whether a session may start, how each raw notification is
/// captured, and how both termination paths drain the buffer exactly once
/// effectively.
pub struct SessionController {
    state: SessionState,
}

impl View for SessionController {
    type V = StateModel;

    closed spec fn view(&self) -> StateModel {
        self.state@
    }
}

impl SessionController {
    /// A controller in the Idle state with an empty buffer.
    pub fn new() -> (controller: SessionController)
        ensures
            controller@ == initial_model(),
    {
        SessionController { state: SessionState::new() }
    }

    /// Starts a session: refused without effect while one is already active
    /// (at most one session at a time) or when the label is empty; otherwise
    /// the shared state is reset under the new label and capture begins.
    pub fn start_session(&mut self, label: String) -> (result: Result<(), StartRefusal>)
        ensures
            old(self)@.active ==> result == Err::<(), StartRefusal>(StartRefusal::AlreadyActive)
                && final(self)@ == old(self)@,
            !old(self)@.active && label@.len() == 0 ==> result == Err::<(), StartRefusal>(
                StartRefusal::EmptyLabel,
            ) && final(self)@ == old(self)@,
            !old(self)@.active && label@.len() > 0 ==> result == Ok::<(), StartRefusal>(())
                && final(self)@ == reset_model(old(self)@, label@),
    {
        if self.state.is_active() {
            return Err(StartRefusal::AlreadyActive);
        }
        if label.as_str().is_empty() {
            return Err(StartRefusal::EmptyLabel);
        }
        self.state.reset(label);
        Ok(())
    }

    /// One listener callback invocation: reads the active flag, normalizes
    /// the raw notification under the session label, and buffers the record;
    /// a stale, foreign or unsupported notification has no effect.
    pub fn handle_event(&mut self, raw: RawEvent, timestamp: String)
        ensures
            final(self)@ == event_step(old(self)@, raw@, timestamp@),
    {
        if !self.state.is_active() {
            return;
        }
        let label = self.state.label().clone();
        match normalize(raw, label, timestamp) {
            Some(record) => self.state.push(record),
            None => {},
        }
    }

    /// Operator-initiated termination: deactivates the session and hands out
    /// the drained batch for flushing.
    pub fn stop_session(&mut self) -> (drained: Vec<EventRecord>)
        ensures
            final(self)@ == drained_model(old(self)@),
            views_of(drained@) == drain_output(old(self)@),
    {
        self.state.deactivate_and_drain()
    }

    /// Time-initiated termination, taken when the fixed session duration has
    /// elapsed: the same drain, so a timer firing after a manual stop hands
    /// out an empty batch and is harmless.
    pub fn on_timeout(&mut self) -> (drained: Vec<EventRecord>)
        ensures
            final(self)@ == drained_model(old(self)@),
            views_of(drained@) == drain_output(old(self)@),
    {
        self.state.deactivate_and_drain()
    }

    /// A snapshot of the active flag, polled by the front-end each
    /// interaction cycle.
    pub fn is_active(&self) -> (active: bool)
        ensures
            active == self@.active,
    {
        self.state.is_active()
    }

    /// The label of the current (or most recent) session.
    pub fn label(&self) -> (label: &String)
        ensures
            label@ == self@.label,
    {
        self.state.label()
    }
}

} // verus!
