//! The persistence writer's logic: what one flush appends to the append-only
//! store. A fixed header line is written only when the store is still empty,
//! then one encoded line per drained record, in drain order. `Store` keeps
//! the lines in memory so the append discipline can be exercised directly;
//! `batch_text` renders the same new lines as one text block for a caller
//! that appends to a store kept as a file.

use vstd::prelude::*;
use crate::record::{EventRecord, RecordModel, encode_model, views_of};

verus! {

/// The header line, written once at store creation.
pub open spec fn header_model() -> Seq<char> {
    "Task,Timestamp,EventType,Details1,Details2"@
}

/// The encoded line of each record of a batch, in order.
pub open spec fn encoded_lines(records: Seq<RecordModel>) -> Seq<Seq<char>> {
    records.map_values(|r: RecordModel| encode_model(r))
}

/// The lines one flush adds: the header first when the store is still
/// empty, then the batch's encoded lines.
pub open spec fn new_lines(store_empty: bool, records: Seq<RecordModel>) -> Seq<Seq<char>> {
    if store_empty {
        seq![header_model()] + encoded_lines(records)
    } else {
        encoded_lines(records)
    }
}

/// The whole store after appending a batch to it.
pub open spec fn append_model(lines: Seq<Seq<char>>, records: Seq<RecordModel>) -> Seq<Seq<char>> {
    lines + new_lines(lines.len() == 0, records)
}

/// The header is written at most once in the store's lifetime: every append
/// leaves the store non-empty, and an append to a non-empty store adds the
/// batch's encoded lines only — so of any two successive appends, only the
/// first can have written the header, and only if the store was empty.
pub proof fn lemma_header_written_at_most_once(
    lines: Seq<Seq<char>>,
    first: Seq<RecordModel>,
    second: Seq<RecordModel>,
)
    ensures
        append_model(lines, first).len() > 0,
        append_model(append_model(lines, first), second) == append_model(lines, first)
            + encoded_lines(second),
        lines.len() > 0 ==> append_model(lines, first) == lines + encoded_lines(first),
{
}

/// The header line as text.
pub fn header_line() -> (header: String)
    ensures
        header@ == header_model(),
{
    String::from_str("Task,Timestamp,EventType,Details1,Details2")
}

/// The views of the stored lines.
pub open spec fn line_views(lines: Seq<String>) -> Seq<Seq<char>> {
    lines.map_values(|line: String| line@)
}

/// An append-only store of encoded lines, held in memory.
pub struct Store {
    lines: Vec<String>,
}

impl View for Store {
    type V = Seq<Seq<char>>;

    closed spec fn view(&self) -> Seq<Seq<char>> {
        line_views(self.lines@)
    }
}

impl Store {
    /// A store that does not exist yet: no lines, not even the header.
    pub fn new() -> (store: Store)
        ensures
            store@ == Seq::<Seq<char>>::empty(),
    {
        let store = Store { lines: Vec::new() };
        proof {
            assert(store@ =~= Seq::<Seq<char>>::empty());
        }
        store
    }

    /// One flush: writes the header only if the store is still empty, then
    /// one encoded line per record of the batch, in batch order.
    pub fn append(&mut self, records: &Vec<EventRecord>)
        ensures
            final(self)@ == append_model(old(self)@, views_of(records@)),
    {
        let ghost old_lines = self@;
        let ghost batch = views_of(records@);
        if self.lines.len() == 0 {
            let header = header_line();
            let ghost header_view = header@;
            let ghost prev = self.lines@;
            self.lines.push(header);
            proof {
                assert(line_views(self.lines@) =~= line_views(prev).push(header_view));
            }
        }
        let ghost base = self@;
        proof {
            if old_lines.len() == 0 {
                assert(base =~= old_lines + seq![header_model()]);
            } else {
                assert(base =~= old_lines);
            }
            assert(append_model(old_lines, batch) =~= base + encoded_lines(batch));
        }
        let mut i: usize = 0;
        while i < records.len()
            invariant
                i <= records.len(),
                batch == views_of(records@),
                self@ == base + encoded_lines(batch).take(i as int),
            decreases records.len() - i,
        {
            let line = records[i].encode();
            let ghost line_view = line@;
            let ghost prev = self.lines@;
            proof {
                assert(line_view == encoded_lines(batch)[i as int]);
            }
            self.lines.push(line);
            proof {
                assert(line_views(self.lines@) =~= line_views(prev).push(line_view));
                assert(line_views(prev).push(line_view) =~= base + encoded_lines(batch).take(
                    i as int + 1,
                ));
            }
            i += 1;
        }
        proof {
            assert(encoded_lines(batch).take(records@.len() as int) =~= encoded_lines(batch));
            assert(self@ =~= append_model(old_lines, batch));
        }
    }

    /// How many lines the store holds.
    pub fn len(&self) -> (count: usize)
        ensures
            count == self@.len(),
    {
        self.lines.len()
    }

    /// The line at a position.
    pub fn line(&self, i: usize) -> (line: &String)
        requires
            i < self@.len(),
        ensures
            line@ == self@[i as int],
    {
        &self.lines[i]
    }
}

/// A sequence of lines joined into one text block, each line terminated by a
/// newline.
pub open spec fn joined(lines: Seq<Seq<char>>) -> Seq<char>
    decreases lines.len(),
{
    if lines.len() == 0 {
        Seq::empty()
    } else {
        joined(lines.drop_last()) + lines.last() + "\n"@
    }
}

/// The text one flush appends to a store that currently has the given
/// emptiness: its new lines, joined.
pub open spec fn batch_model(store_empty: bool, records: Seq<RecordModel>) -> Seq<char> {
    joined(new_lines(store_empty, records))
}

/// Renders what one flush appends to the store as text: the header line
/// first if the store is still empty, then each record of the batch encoded,
/// every line ending in a newline.
pub fn batch_text(records: &Vec<EventRecord>, store_empty: bool) -> (text: String)
    ensures
        text@ == batch_model(store_empty, views_of(records@)),
{
    let ghost batch = views_of(records@);
    let ghost head: Seq<Seq<char>> = if store_empty {
        seq![header_model()]
    } else {
        Seq::empty()
    };
    let mut text = String::new();
    if store_empty {
        text.append("Task,Timestamp,EventType,Details1,Details2");
        text.append("\n");
        proof {
            assert(head.drop_last() =~= Seq::<Seq<char>>::empty());
            assert(joined(Seq::<Seq<char>>::empty()) == Seq::<char>::empty());
            assert(text@ =~= joined(head));
        }
    }
    proof {
        assert(head + encoded_lines(batch).take(0) =~= head);
    }
    let mut i: usize = 0;
    while i < records.len()
        invariant
            i <= records.len(),
            batch == views_of(records@),
            head == (if store_empty {
                seq![header_model()]
            } else {
                Seq::<Seq<char>>::empty()
            }),
            text@ == joined(head + encoded_lines(batch).take(i as int)),
        decreases records.len() - i,
    {
        let line = records[i].encode();
        proof {
            assert(line@ == encoded_lines(batch)[i as int]);
        }
        text.append(line.as_str());
        text.append("\n");
        proof {
            let extended = head + encoded_lines(batch).take(i as int + 1);
            assert(extended.drop_last() =~= head + encoded_lines(batch).take(i as int));
            assert(text@ =~= joined(extended));
        }
        i += 1;
    }
    proof {
        assert(head + encoded_lines(batch).take(records@.len() as int) =~= new_lines(
            store_empty,
            batch,
        ));
    }
    text
}

} // verus!
