//! The record model: the normalized representation of one captured input
//! occurrence and its comma-separated text encoding.

use vstd::prelude::*;

verus! {

/// The kind of input occurrence a record describes.
#[derive(Clone, Copy, PartialEq, Eq, Structural, Debug)]
pub enum EventKind {
    PointerMove,
    ButtonPress,
    ButtonRelease,
    KeyPress,
    KeyRelease,
}

/// A raw notification from the input hook, already reduced to plain text:
/// coordinates and button/key identifiers arrive pre-rendered by the caller
/// that owns the hook subscription.
#[derive(Debug)]
pub enum RawEvent {
    PointerMove { x: String, y: String },
    ButtonPress { id: String },
    ButtonRelease { id: String },
    KeyPress { id: String },
    KeyRelease { id: String },
    /// Scroll wheel and other unrecognized device notifications, which the
    /// capture path silently discards.
    Unsupported,
}

/// The mathematical shape of a `RawEvent`.
pub enum RawModel {
    PointerMove { x: Seq<char>, y: Seq<char> },
    ButtonPress { id: Seq<char> },
    ButtonRelease { id: Seq<char> },
    KeyPress { id: Seq<char> },
    KeyRelease { id: Seq<char> },
    Unsupported,
}

impl View for RawEvent {
    type V = RawModel;

    open spec fn view(&self) -> RawModel {
        match self {
            RawEvent::PointerMove { x, y } => RawModel::PointerMove { x: x@, y: y@ },
            RawEvent::ButtonPress { id } => RawModel::ButtonPress { id: id@ },
            RawEvent::ButtonRelease { id } => RawModel::ButtonRelease { id: id@ },
            RawEvent::KeyPress { id } => RawModel::KeyPress { id: id@ },
            RawEvent::KeyRelease { id } => RawModel::KeyRelease { id: id@ },
            RawEvent::Unsupported => RawModel::Unsupported,
        }
    }
}

/// One captured input occurrence, bound to the session it was observed in.
///
/// `detail1`/`detail2` carry the x and y coordinates for a pointer move; for
/// button and key events `detail1` is the identifier and `detail2` is empty.
#[derive(Debug)]
pub struct EventRecord {
    pub task_name: String,
    pub timestamp: String,
    pub kind: EventKind,
    pub detail1: String,
    pub detail2: String,
}

/// The mathematical shape of an `EventRecord`.
pub struct RecordModel {
    pub task_name: Seq<char>,
    pub timestamp: Seq<char>,
    pub kind: EventKind,
    pub detail1: Seq<char>,
    pub detail2: Seq<char>,
}

impl View for EventRecord {
    type V = RecordModel;

    open spec fn view(&self) -> RecordModel {
        RecordModel {
            task_name: self.task_name@,
            timestamp: self.timestamp@,
            kind: self.kind,
            detail1: self.detail1@,
            detail2: self.detail2@,
        }
    }
}

/// The views of a buffered sequence of records.
pub open spec fn views_of(records: Seq<EventRecord>) -> Seq<RecordModel> {
    records.map_values(|r: EventRecord| r@)
}

/// The literal name under which each kind is encoded.
pub open spec fn kind_label(kind: EventKind) -> Seq<char> {
    match kind {
        EventKind::PointerMove => "PointerMove"@,
        EventKind::ButtonPress => "ButtonPress"@,
        EventKind::ButtonRelease => "ButtonRelease"@,
        EventKind::KeyPress => "KeyPress"@,
        EventKind::KeyRelease => "KeyRelease"@,
    }
}

/// The encoded line: `task_name,timestamp,kind,detail1,detail2`, with no
/// escaping of commas embedded in the fields.
pub open spec fn encode_model(r: RecordModel) -> Seq<char> {
    r.task_name + ","@ + r.timestamp + ","@ + kind_label(r.kind) + ","@ + r.detail1 + ","@
        + r.detail2
}

/// The literal enum name of a kind, as it appears in an encoded line.
pub fn kind_name(kind: EventKind) -> (name: &'static str)
    ensures
        name@ == kind_label(kind),
{
    match kind {
        EventKind::PointerMove => "PointerMove",
        EventKind::ButtonPress => "ButtonPress",
        EventKind::ButtonRelease => "ButtonRelease",
        EventKind::KeyPress => "KeyPress",
        EventKind::KeyRelease => "KeyRelease",
    }
}

impl EventRecord {
    /// Renders the record as one comma-separated line.
    pub fn encode(&self) -> (line: String)
        ensures
            line@ == encode_model(self@),
    {
        let mut line = self.task_name.clone();
        line.append(",");
        line.append(self.timestamp.as_str());
        line.append(",");
        line.append(kind_name(self.kind));
        line.append(",");
        line.append(self.detail1.as_str());
        line.append(",");
        line.append(self.detail2.as_str());
        line
    }
}

/// How a raw notification is normalized into a record for the session with
/// the given label at the given timestamp; unsupported notifications yield
/// nothing and are thereby filtered out.
pub open spec fn normalize_model(raw: RawModel, label: Seq<char>, ts: Seq<char>) -> Option<
    RecordModel,
> {
    match raw {
        RawModel::PointerMove { x, y } => Some(
            RecordModel {
                task_name: label,
                timestamp: ts,
                kind: EventKind::PointerMove,
                detail1: x,
                detail2: y,
            },
        ),
        RawModel::ButtonPress { id } => Some(
            RecordModel {
                task_name: label,
                timestamp: ts,
                kind: EventKind::ButtonPress,
                detail1: id,
                detail2: Seq::empty(),
            },
        ),
        RawModel::ButtonRelease { id } => Some(
            RecordModel {
                task_name: label,
                timestamp: ts,
                kind: EventKind::ButtonRelease,
                detail1: id,
                detail2: Seq::empty(),
            },
        ),
        RawModel::KeyPress { id } => Some(
            RecordModel {
                task_name: label,
                timestamp: ts,
                kind: EventKind::KeyPress,
                detail1: id,
                detail2: Seq::empty(),
            },
        ),
        RawModel::KeyRelease { id } => Some(
            RecordModel {
                task_name: label,
                timestamp: ts,
                kind: EventKind::KeyRelease,
                detail1: id,
                detail2: Seq::empty(),
            },
        ),
        RawModel::Unsupported => None,
    }
}

/// Builds the record for a raw notification, or `None` for an unsupported
/// one.
pub fn normalize(raw: RawEvent, label: String, timestamp: String) -> (record: Option<EventRecord>)
    ensures
        (match record {
            Some(r) => normalize_model(raw@, label@, timestamp@) == Some(r@),
            None => normalize_model(raw@, label@, timestamp@) is None,
        }),
{
    match raw {
        RawEvent::PointerMove { x, y } => Some(
            EventRecord {
                task_name: label,
                timestamp,
                kind: EventKind::PointerMove,
                detail1: x,
                detail2: y,
            },
        ),
        RawEvent::ButtonPress { id } => Some(
            EventRecord {
                task_name: label,
                timestamp,
                kind: EventKind::ButtonPress,
                detail1: id,
                detail2: String::new(),
            },
        ),
        RawEvent::ButtonRelease { id } => Some(
            EventRecord {
                task_name: label,
                timestamp,
                kind: EventKind::ButtonRelease,
                detail1: id,
                detail2: String::new(),
            },
        ),
        RawEvent::KeyPress { id } => Some(
            EventRecord {
                task_name: label,
                timestamp,
                kind: EventKind::KeyPress,
                detail1: id,
                detail2: String::new(),
            },
        ),
        RawEvent::KeyRelease { id } => Some(
            EventRecord {
                task_name: label,
                timestamp,
                kind: EventKind::KeyRelease,
                detail1: id,
                detail2: String::new(),
            },
        ),
        RawEvent::Unsupported => None,
    }
}

} // verus!
