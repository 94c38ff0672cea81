use mouse_tracker::controller::{SessionController, StartRefusal};
use mouse_tracker::record::{normalize, EventKind, EventRecord, RawEvent};
use mouse_tracker::state::SessionState;
use mouse_tracker::store::{batch_text, header_line, Store};

const HEADER: &str = "Task,Timestamp,EventType,Details1,Details2";

fn record(task: &str, ts: &str, kind: EventKind, d1: &str, d2: &str) -> EventRecord {
    EventRecord {
        task_name: task.to_string(),
        timestamp: ts.to_string(),
        kind,
        detail1: d1.to_string(),
        detail2: d2.to_string(),
    }
}

#[test]
fn encode_button_press_line() {
    let r = record("click", "5.0", EventKind::ButtonPress, "Left", "");
    assert_eq!(r.encode().as_str(), "click,5.0,ButtonPress,Left,");
}

#[test]
fn encode_pointer_move_line() {
    let r = record("typing-test", "0.1", EventKind::PointerMove, "10", "10");
    assert_eq!(r.encode().as_str(), "typing-test,0.1,PointerMove,10,10");
}

#[test]
fn encode_each_kind_by_name() {
    let kinds = vec![
        (EventKind::PointerMove, "PointerMove"),
        (EventKind::ButtonPress, "ButtonPress"),
        (EventKind::ButtonRelease, "ButtonRelease"),
        (EventKind::KeyPress, "KeyPress"),
        (EventKind::KeyRelease, "KeyRelease"),
    ];
    for (kind, name) in kinds {
        let r = record("t", "1.5", kind, "a", "b");
        assert_eq!(r.encode(), format!("t,1.5,{},a,b", name));
    }
}

#[test]
fn normalize_pointer_move() {
    let raw = RawEvent::PointerMove { x: "13".to_string(), y: "15".to_string() };
    let r = normalize(raw, "typing-test".to_string(), "0.3".to_string()).unwrap();
    assert_eq!(r.task_name.as_str(), "typing-test");
    assert_eq!(r.timestamp.as_str(), "0.3");
    assert_eq!(r.kind, EventKind::PointerMove);
    assert_eq!(r.detail1.as_str(), "13");
    assert_eq!(r.detail2.as_str(), "15");
}

#[test]
fn normalize_key_press_has_empty_detail2() {
    let raw = RawEvent::KeyPress { id: "KeyA".to_string() };
    let r = normalize(raw, "typing".to_string(), "2.5".to_string()).unwrap();
    assert_eq!(r.kind, EventKind::KeyPress);
    assert_eq!(r.detail1.as_str(), "KeyA");
    assert_eq!(r.detail2.as_str(), "");
}

#[test]
fn normalize_unsupported_is_discarded() {
    let r = normalize(RawEvent::Unsupported, "t".to_string(), "1.0".to_string());
    assert!(r.is_none());
}

// Scenario: three pointer moves captured during "typing-test" and stopped by
// the operator before the timeout land in the store after the header, in
// coordinate order.
#[test]
fn scenario_three_pointer_moves_stopped_before_timeout() {
    let mut controller = SessionController::new();
    controller.start_session("typing-test".to_string()).unwrap();
    let moves = vec![("0.1", "10", "10"), ("0.2", "11", "12"), ("0.3", "13", "15")];
    for (ts, x, y) in moves {
        let raw = RawEvent::PointerMove { x: x.to_string(), y: y.to_string() };
        controller.handle_event(raw, ts.to_string());
    }
    let drained = controller.stop_session();
    assert!(!controller.is_active());

    let mut store = Store::new();
    store.append(&drained);
    assert_eq!(store.len(), 4);
    assert_eq!(store.line(0).as_str(), HEADER);
    assert_eq!(store.line(1).as_str(), "typing-test,0.1,PointerMove,10,10");
    assert_eq!(store.line(2).as_str(), "typing-test,0.2,PointerMove,11,12");
    assert_eq!(store.line(3).as_str(), "typing-test,0.3,PointerMove,13,15");
}

// Scenario: a session in which no event arrives ends at the timeout: the
// store gains no data line (header only, on first creation) and the active
// flag clears without a stop call.
#[test]
fn scenario_idle_session_times_out() {
    let mut controller = SessionController::new();
    controller.start_session("idle-watch".to_string()).unwrap();
    assert!(controller.is_active());
    let drained = controller.on_timeout();
    assert!(!controller.is_active());
    assert_eq!(drained.len(), 0);

    let mut store = Store::new();
    store.append(&drained);
    assert_eq!(store.len(), 1);
    assert_eq!(store.line(0).as_str(), HEADER);
}

// Scenario: a second start while the first session is still active is
// refused, and buffer and label stay bound to the first session.
#[test]
fn scenario_second_start_is_refused() {
    let mut controller = SessionController::new();
    controller.start_session("a".to_string()).unwrap();
    let second = controller.start_session("b".to_string());
    assert_eq!(second, Err(StartRefusal::AlreadyActive));
    assert!(controller.is_active());
    assert_eq!(controller.label().as_str(), "a");

    let raw = RawEvent::ButtonPress { id: "Left".to_string() };
    controller.handle_event(raw, "1.0".to_string());
    let drained = controller.stop_session();
    assert_eq!(drained.len(), 1);
    assert_eq!(drained[0].task_name.as_str(), "a");
}

// Scenario: a single button press during session "click" flushes as a line
// with an empty final field.
#[test]
fn scenario_single_button_press_flushed_line() {
    let mut controller = SessionController::new();
    controller.start_session("click".to_string()).unwrap();
    let raw = RawEvent::ButtonPress { id: "Left".to_string() };
    controller.handle_event(raw, "5.0".to_string());
    let drained = controller.stop_session();

    let mut store = Store::new();
    store.append(&drained);
    assert_eq!(store.len(), 2);
    assert_eq!(store.line(1).as_str(), "click,5.0,ButtonPress,Left,");
}

#[test]
fn empty_label_is_refused() {
    let mut controller = SessionController::new();
    let refused = controller.start_session(String::new());
    assert_eq!(refused, Err(StartRefusal::EmptyLabel));
    assert!(!controller.is_active());
}

#[test]
fn header_appears_once_across_sessions() {
    let mut controller = SessionController::new();
    let mut store = Store::new();

    controller.start_session("first".to_string()).unwrap();
    controller.handle_event(
        RawEvent::KeyPress { id: "KeyQ".to_string() },
        "1.0".to_string(),
    );
    let first = controller.stop_session();
    store.append(&first);

    controller.start_session("second".to_string()).unwrap();
    controller.handle_event(
        RawEvent::KeyRelease { id: "KeyQ".to_string() },
        "2.0".to_string(),
    );
    let second = controller.on_timeout();
    store.append(&second);

    assert_eq!(store.len(), 3);
    let mut header_count: usize = 0;
    for i in 0..store.len() {
        if store.line(i).as_str() == HEADER {
            header_count += 1;
        }
    }
    assert_eq!(header_count, 1);
    assert_eq!(store.line(1).as_str(), "first,1.0,KeyPress,KeyQ,");
    assert_eq!(store.line(2).as_str(), "second,2.0,KeyRelease,KeyQ,");
}

#[test]
fn records_carry_their_session_label() {
    let mut controller = SessionController::new();
    controller.start_session("labeled".to_string()).unwrap();
    controller.handle_event(
        RawEvent::ButtonPress { id: "Right".to_string() },
        "1.0".to_string(),
    );
    controller.handle_event(
        RawEvent::PointerMove { x: "1".to_string(), y: "2".to_string() },
        "2.0".to_string(),
    );
    let drained = controller.stop_session();
    assert_eq!(drained.len(), 2);
    for r in &drained {
        assert_eq!(r.task_name.as_str(), "labeled");
    }
}

#[test]
fn second_drain_is_empty() {
    let mut state = SessionState::new();
    state.reset("t".to_string());
    state.push(record("t", "1.0", EventKind::KeyPress, "KeyA", ""));
    let first = state.deactivate_and_drain();
    assert_eq!(first.len(), 1);
    assert!(!state.is_active());
    let second = state.deactivate_and_drain();
    assert!(second.is_empty());
}

#[test]
fn second_stop_flushes_nothing() {
    let mut controller = SessionController::new();
    controller.start_session("t".to_string()).unwrap();
    controller.handle_event(
        RawEvent::ButtonRelease { id: "Left".to_string() },
        "3.0".to_string(),
    );
    let first = controller.stop_session();
    assert_eq!(first.len(), 1);
    let late = controller.on_timeout();
    assert!(late.is_empty());
}

#[test]
fn reset_clears_stale_records() {
    let mut state = SessionState::new();
    state.reset("old".to_string());
    state.push(record("old", "0.5", EventKind::KeyPress, "KeyZ", ""));
    state.reset("new".to_string());
    state.push(record("new", "1.5", EventKind::KeyRelease, "KeyZ", ""));
    let drained = state.deactivate_and_drain();
    assert_eq!(drained.len(), 1);
    assert_eq!(drained[0].task_name.as_str(), "new");
    assert_eq!(drained[0].timestamp.as_str(), "1.5");
}

#[test]
fn push_while_inactive_is_a_no_op() {
    let mut state = SessionState::new();
    assert!(!state.is_active());
    state.push(record("t", "1.0", EventKind::KeyPress, "KeyA", ""));
    let drained = state.deactivate_and_drain();
    assert!(drained.is_empty());
}

#[test]
fn event_while_inactive_is_discarded() {
    let mut controller = SessionController::new();
    controller.handle_event(
        RawEvent::ButtonPress { id: "Left".to_string() },
        "1.0".to_string(),
    );
    let drained = controller.stop_session();
    assert!(drained.is_empty());
}

#[test]
fn unsupported_event_during_session_is_discarded() {
    let mut controller = SessionController::new();
    controller.start_session("t".to_string()).unwrap();
    controller.handle_event(RawEvent::Unsupported, "1.0".to_string());
    let drained = controller.stop_session();
    assert!(drained.is_empty());
}

#[test]
fn batch_text_for_new_store_starts_with_header() {
    let records = vec![record("click", "5.0", EventKind::ButtonPress, "Left", "")];
    let text = batch_text(&records, true);
    assert_eq!(
        text.as_str(),
        "Task,Timestamp,EventType,Details1,Details2\nclick,5.0,ButtonPress,Left,\n"
    );
}

#[test]
fn batch_text_for_existing_store_has_no_header() {
    let records = vec![
        record("t", "1.0", EventKind::KeyPress, "KeyA", ""),
        record("t", "2.0", EventKind::KeyRelease, "KeyA", ""),
    ];
    let text = batch_text(&records, false);
    assert_eq!(text.as_str(), "t,1.0,KeyPress,KeyA,\nt,2.0,KeyRelease,KeyA,\n");
}

#[test]
fn batch_text_of_empty_batch() {
    let records: Vec<EventRecord> = Vec::new();
    assert_eq!(batch_text(&records, false).as_str(), "");
    assert_eq!(
        batch_text(&records, true).as_str(),
        "Task,Timestamp,EventType,Details1,Details2\n"
    );
}

#[test]
fn header_line_matches_store_header() {
    assert_eq!(header_line().as_str(), HEADER);
    let mut store = Store::new();
    assert_eq!(store.len(), 0);
    let none: Vec<EventRecord> = Vec::new();
    store.append(&none);
    assert_eq!(store.len(), 1);
    assert_eq!(store.line(0).as_str(), header_line().as_str());
}
