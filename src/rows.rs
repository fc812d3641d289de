use vstd::prelude::*;
use crate::text::same_text;
use crate::record::FlatRecord;

verus! {

/// An XML parse event, cut down to what the row extractor reads.
pub enum XmlEvent {
    /// A start tag, by its local name.
    StartElement(String),
    /// An end tag, by its local name.
    EndElement(String),
    /// Character data.
    Characters(String),
    /// A parse error, with its message; the parser stops after it.
    Error(String),
    /// Any other event.
    Other,
}

/// An XML parse event in the terms of the contracts.
pub enum EventView {
    Start(Seq<char>),
    End(Seq<char>),
    Text(Seq<char>),
    Error(Seq<char>),
    Other,
}

impl View for XmlEvent {
    type V = EventView;

    open spec fn view(&self) -> EventView {
        match self {
            XmlEvent::StartElement(n) => EventView::Start(n@),
            XmlEvent::EndElement(n) => EventView::End(n@),
            XmlEvent::Characters(s) => EventView::Text(s@),
            XmlEvent::Error(m) => EventView::Error(m@),
            XmlEvent::Other => EventView::Other,
        }
    }
}

pub open spec fn event_views(events: Seq<XmlEvent>) -> Seq<EventView> {
    events.map_values(|e: XmlEvent| e@)
}

pub open spec fn record_views(records: Seq<FlatRecord>) -> Seq<Map<Seq<char>, Seq<char>>> {
    records.map_values(|r: FlatRecord| r@)
}

/// The events that xml-rs yields for the document `doc`.
pub uninterp spec fn xml_events_of(doc: Seq<char>) -> Seq<EventView>;

/// Relies on xml-rs: an `EventReader` over the document, iterated until it
/// stops (after the end of the document or after its first error), each
/// event cut down to what the row extractor reads. The events depend on the
/// document alone.
#[verifier::external_body]
fn parse_events(doc: &str) -> (r: Vec<XmlEvent>)
    ensures
        event_views(r@) == xml_events_of(doc@),
{
    xml::reader::EventReader::new(doc.as_bytes()).into_iter().map(|e| match e {
        Ok(xml::reader::XmlEvent::StartElement { name, .. }) => XmlEvent::StartElement(name.local_name),
        Ok(xml::reader::XmlEvent::EndElement { name }) => XmlEvent::EndElement(name.local_name),
        Ok(xml::reader::XmlEvent::Characters(s)) => XmlEvent::Characters(s),
        Ok(_) => XmlEvent::Other,
        Err(e) => XmlEvent::Error(e.to_string()),
    }).collect()
}

/// The state of the row extractor: whether it is inside a row, the field
/// that character data goes to, and the row's fields so far.
pub struct RowState {
    pub in_row: bool,
    pub field: Option<Seq<char>>,
    pub record: Map<Seq<char>, Seq<char>>,
}

/// Outside any row, with no field and an empty record: where extraction
/// starts.
pub open spec fn outside_row() -> RowState {
    RowState { in_row: false, field: None, record: Map::empty() }
}

/// One move of the extractor: the next state, and the record that the
/// event completes, if it completes one.
pub open spec fn row_step(s: RowState, e: EventView) -> (RowState, Option<Map<Seq<char>, Seq<char>>>) {
    match e {
        EventView::Start(name) => {
            if !s.in_row {
                if name == "row"@ {
                    (RowState { in_row: true, field: None, record: Map::empty() }, None)
                } else {
                    (s, None)
                }
            } else {
                (RowState { field: Some(name), ..s }, None)
            }
        },
        EventView::End(name) => {
            if s.in_row && name == "row"@ {
                (outside_row(), Some(s.record))
            } else {
                (s, None)
            }
        },
        EventView::Text(text) => {
            if s.in_row && s.field is Some {
                (RowState { record: s.record.insert(s.field->0, text), ..s }, None)
            } else {
                (s, None)
            }
        },
        _ => (s, None),
    }
}

/// The records that the events complete from the state `s` on, up to the
/// first parse error.
pub open spec fn extract_from(s: RowState, events: Seq<EventView>) -> Seq<Map<Seq<char>, Seq<char>>>
    decreases events.len(),
{
    if events.len() == 0 {
        Seq::empty()
    } else if events[0] is Error {
        Seq::empty()
    } else {
        let (t, out) = row_step(s, events[0]);
        let rest = extract_from(t, events.drop_first());
        match out {
            Some(r) => seq![r] + rest,
            None => rest,
        }
    }
}

/// The records of an event sequence.
pub open spec fn extract(events: Seq<EventView>) -> Seq<Map<Seq<char>, Seq<char>>> {
    extract_from(outside_row(), events)
}

/// The row extractor: turns XML parse events into one record per `row`
/// element.
pub struct RowExtractor {
    in_row: bool,
    field: Option<String>,
    record: FlatRecord,
}

impl View for RowExtractor {
    type V = RowState;

    closed spec fn view(&self) -> RowState {
        RowState {
            in_row: self.in_row,
            field: match self.field {
                Some(f) => Some(f@),
                None => None,
            },
            record: self.record@,
        }
    }
}

pub open spec fn record_view(r: Option<FlatRecord>) -> Option<Map<Seq<char>, Seq<char>>> {
    match r {
        Some(rec) => Some(rec@),
        None => None,
    }
}

impl RowExtractor {
    /// An extractor outside any row.
    pub fn new() -> (r: RowExtractor)
        ensures
            r@ == outside_row(),
    {
        RowExtractor { in_row: false, field: None, record: FlatRecord::new() }
    }

    /// Takes one event; returns the record that it completes, if any.
    pub fn step(&mut self, e: &XmlEvent) -> (r: Option<FlatRecord>)
        ensures
            (final(self)@, record_view(r)) == row_step(old(self)@, e@),
    {
        proof {
            reveal_strlit("row");
        }
        match e {
            XmlEvent::StartElement(name) => {
                if !self.in_row {
                    if same_text(name.as_str(), "row") {
                        self.in_row = true;
                        self.field = None;
                        self.record = FlatRecord::new();
                    }
                } else {
                    self.field = Some(name.clone());
                }
                None
            },
            XmlEvent::EndElement(name) => {
                if self.in_row && same_text(name.as_str(), "row") {
                    let mut done = FlatRecord::new();
                    std::mem::swap(&mut done, &mut self.record);
                    self.in_row = false;
                    self.field = None;
                    Some(done)
                } else {
                    None
                }
            },
            XmlEvent::Characters(text) => {
                if self.in_row {
                    match &self.field {
                        Some(f) => {
                            let f = f.clone();
                            self.record.set(f, text.clone());
                        },
                        None => {},
                    }
                }
                None
            },
            _ => None,
        }
    }
}

/// The records of a sequence of parse events: one per `row` element, in
/// document order, up to the first parse error.
pub fn extract_records(events: &Vec<XmlEvent>) -> (r: Vec<FlatRecord>)
    ensures
        record_views(r@) == extract(event_views(events@)),
{
    let ghost evs = event_views(events@);
    let mut ex = RowExtractor::new();
    let mut out: Vec<FlatRecord> = Vec::new();
    let mut i: usize = 0;
    assert(evs.skip(0) == evs);
    while i < events.len()
        invariant
            evs == event_views(events@),
            i <= events@.len(),
            record_views(out@) + extract_from(ex@, evs.skip(i as int)) == extract(evs),
        decreases events.len() - i,
    {
        let ghost before = ex@;
        assert(evs.skip(i as int)[0] == events@[i as int]@);
        assert(evs.skip(i as int).drop_first() == evs.skip(i + 1));
        if let XmlEvent::Error(_) = &events[i] {
            assert(record_views(out@) + Seq::empty() == record_views(out@));
            return out;
        }
        let done = ex.step(&events[i]);
        match done {
            Some(rec) => {
                let ghost rv = rec@;
                out.push(rec);
                assert(record_views(out@) == record_views(out@.drop_last()).push(rv));
                assert(record_views(out@) + extract_from(ex@, evs.skip(i + 1))
                    == record_views(out@.drop_last()) + (seq![rv] + extract_from(ex@, evs.skip(i + 1))));
            },
            None => {},
        }
        i = i + 1;
    }
    assert(evs.skip(i as int).len() == 0);
    assert(record_views(out@) + Seq::empty() == record_views(out@));
    out
}

/// The records of the catalog document `doc`: one per `row` element, in
/// document order, up to the first parse error.
pub fn read_rows(doc: &str) -> (r: Vec<FlatRecord>)
    ensures
        record_views(r@) == extract(xml_events_of(doc@)),
{
    let events = parse_events(doc);
    extract_records(&events)
}

/// The events of the child elements of a row that give the fields `fields`
/// in order: for each, a start tag, its text and an end tag.
pub open spec fn field_events(fields: Seq<(Seq<char>, Seq<char>)>) -> Seq<EventView>
    decreases fields.len(),
{
    if fields.len() == 0 {
        Seq::empty()
    } else {
        seq![
            EventView::Start(fields[0].0),
            EventView::Text(fields[0].1),
            EventView::End(fields[0].0),
        ] + field_events(fields.drop_first())
    }
}

/// The events of one `row` element whose children give `fields`.
pub open spec fn row_events(fields: Seq<(Seq<char>, Seq<char>)>) -> Seq<EventView> {
    seq![EventView::Start("row"@)] + field_events(fields) + seq![EventView::End("row"@)]
}

/// The events of consecutive `row` elements.
pub open spec fn rows_events(rows: Seq<Seq<(Seq<char>, Seq<char>)>>) -> Seq<EventView>
    decreases rows.len(),
{
    if rows.len() == 0 {
        Seq::empty()
    } else {
        row_events(rows[0]) + rows_events(rows.drop_first())
    }
}

/// `m` with the fields `fields` written into it in order.
pub open spec fn fold_fields(m: Map<Seq<char>, Seq<char>>, fields: Seq<(Seq<char>, Seq<char>)>) -> Map<Seq<char>, Seq<char>>
    decreases fields.len(),
{
    if fields.len() == 0 {
        m
    } else {
        fold_fields(m.insert(fields[0].0, fields[0].1), fields.drop_first())
    }
}

/// The record of a row whose children give `fields`.
pub open spec fn row_fields(fields: Seq<(Seq<char>, Seq<char>)>) -> Map<Seq<char>, Seq<char>> {
    fold_fields(Map::empty(), fields)
}

/// A row is well formed when no child element is itself named `row`.
pub open spec fn well_formed_row(fields: Seq<(Seq<char>, Seq<char>)>) -> bool {
    forall|j: int| 0 <= j < fields.len() ==> fields[j].0 != "row"@
}

proof fn lemma_fields_then_end(
    field: Option<Seq<char>>,
    m: Map<Seq<char>, Seq<char>>,
    fields: Seq<(Seq<char>, Seq<char>)>,
    rest: Seq<EventView>,
)
    requires
        well_formed_row(fields),
    ensures
        extract_from(RowState { in_row: true, field, record: m }, field_events(fields) + seq![EventView::End("row"@)] + rest)
            == seq![fold_fields(m, fields)] + extract_from(outside_row(), rest),
    decreases fields.len(),
{
    let s = RowState { in_row: true, field, record: m };
    let end_row = seq![EventView::End("row"@)];
    if fields.len() == 0 {
        let evs = field_events(fields) + end_row + rest;
        assert(field_events(fields) == Seq::<EventView>::empty());
        assert(evs == seq![EventView::End("row"@)] + rest);
        assert(evs[0] == EventView::End("row"@));
        assert(evs.drop_first() == rest);
        assert(row_step(s, evs[0]) == (outside_row(), Some(m)));
        assert(extract_from(s, evs) == seq![m] + extract_from(outside_row(), rest));
    } else {
        let (k, v) = fields[0];
        let tail = fields.drop_first();
        assert(well_formed_row(tail)) by {
            assert forall|j: int| 0 <= j < tail.len() implies tail[j].0 != "row"@ by {
                assert(tail[j] == fields[j + 1]);
            }
        }
        let after = field_events(tail) + end_row + rest;
        let evs = field_events(fields) + end_row + rest;
        let e1 = seq![EventView::Text(v), EventView::End(k)] + after;
        let e2 = seq![EventView::End(k)] + after;
        assert(evs == seq![EventView::Start(k)] + e1);
        assert(evs[0] == EventView::Start(k));
        assert(evs.drop_first() == e1);
        assert(e1[0] == EventView::Text(v));
        assert(e1.drop_first() == e2);
        assert(e2[0] == EventView::End(k));
        assert(e2.drop_first() == after);
        assert(k != "row"@);
        let s1 = RowState { in_row: true, field: Some(k), record: m };
        let s2 = RowState { in_row: true, field: Some(k), record: m.insert(k, v) };
        assert(row_step(s, evs[0]) == (s1, None::<Map<Seq<char>, Seq<char>>>));
        assert(extract_from(s, evs) == extract_from(s1, e1));
        assert(row_step(s1, e1[0]) == (s2, None::<Map<Seq<char>, Seq<char>>>));
        assert(extract_from(s1, e1) == extract_from(s2, e2));
        assert(row_step(s2, e2[0]) == (s2, None::<Map<Seq<char>, Seq<char>>>));
        assert(extract_from(s2, e2) == extract_from(s2, after));
        lemma_fields_then_end(Some(k), m.insert(k, v), tail, rest);
        assert(fold_fields(m, fields) == fold_fields(m.insert(k, v), tail));
    }
}

proof fn lemma_rows_then(rows: Seq<Seq<(Seq<char>, Seq<char>)>>, rest: Seq<EventView>)
    requires
        forall|i: int| 0 <= i < rows.len() ==> well_formed_row(#[trigger] rows[i]),
    ensures
        extract_from(outside_row(), rows_events(rows) + rest)
            == rows.map_values(|r: Seq<(Seq<char>, Seq<char>)>| row_fields(r)) + extract_from(outside_row(), rest),
    decreases rows.len(),
{
    let all = rows.map_values(|r: Seq<(Seq<char>, Seq<char>)>| row_fields(r));
    if rows.len() == 0 {
        assert(rows_events(rows) + rest == rest);
        assert(all + extract_from(outside_row(), rest) == extract_from(outside_row(), rest));
    } else {
        let tail = rows.drop_first();
        assert forall|i: int| 0 <= i < tail.len() implies well_formed_row(#[trigger] tail[i]) by {
            assert(tail[i] == rows[i + 1]);
        }
        lemma_rows_then(tail, rest);
        let after = rows_events(tail) + rest;
        let evs = rows_events(rows) + rest;
        let inner = field_events(rows[0]) + seq![EventView::End("row"@)] + after;
        assert(evs == seq![EventView::Start("row"@)] + inner);
        assert(evs[0] == EventView::Start("row"@));
        assert(evs.drop_first() == inner);
        assert(well_formed_row(rows[0]));
        lemma_fields_then_end(None, Map::empty(), rows[0], after);
        assert(all == seq![row_fields(rows[0])] + tail.map_values(|r: Seq<(Seq<char>, Seq<char>)>| row_fields(r)));
    }
}

proof fn lemma_fold_fields_keys(m: Map<Seq<char>, Seq<char>>, fields: Seq<(Seq<char>, Seq<char>)>, k: Seq<char>)
    ensures
        fold_fields(m, fields).contains_key(k)
            <==> (m.contains_key(k) || exists|j: int| 0 <= j < fields.len() && fields[j].0 == k),
    decreases fields.len(),
{
    if fields.len() > 0 {
        let tail = fields.drop_first();
        lemma_fold_fields_keys(m.insert(fields[0].0, fields[0].1), tail, k);
        if exists|j: int| 0 <= j < tail.len() && tail[j].0 == k {
            let j = choose|j: int| 0 <= j < tail.len() && tail[j].0 == k;
            assert(fields[j + 1].0 == k);
        }
        if exists|j: int| 0 <= j < fields.len() && fields[j].0 == k {
            let j = choose|j: int| 0 <= j < fields.len() && fields[j].0 == k;
            if j > 0 {
                assert(tail[j - 1].0 == k);
            }
        }
    }
}

/// Extraction correctness: a document of well-formed rows inside an
/// enclosing element yields one record per row, in document order, and each
/// record holds exactly the fields that its row gives, the last value of a
/// repeated field winning.
pub proof fn lemma_rows_extracted(root: Seq<char>, rows: Seq<Seq<(Seq<char>, Seq<char>)>>)
    requires
        root != "row"@,
        forall|i: int| 0 <= i < rows.len() ==> well_formed_row(#[trigger] rows[i]),
    ensures
        ({
            let out = extract(seq![EventView::Start(root)] + rows_events(rows) + seq![EventView::End(root)]);
            &&& out.len() == rows.len()
            &&& forall|i: int| 0 <= i < rows.len() ==> #[trigger] out[i] == row_fields(rows[i])
            &&& forall|i: int, k: Seq<char>| 0 <= i < rows.len() ==>
                (#[trigger] out[i].contains_key(k) <==> exists|j: int| 0 <= j < rows[i].len() && rows[i][j].0 == k)
        }),
{
    let close = seq![EventView::End(root)];
    let evs = seq![EventView::Start(root)] + rows_events(rows) + close;
    assert(evs[0] == EventView::Start(root));
    assert(evs.drop_first() == rows_events(rows) + close);
    lemma_rows_then(rows, close);
    assert(row_step(outside_row(), evs[0]) == (outside_row(), None::<Map<Seq<char>, Seq<char>>>));
    assert(extract(evs) == extract_from(outside_row(), rows_events(rows) + close));
    assert(close[0] == EventView::End(root));
    assert(close.drop_first().len() == 0);
    assert(row_step(outside_row(), close[0]) == (outside_row(), None::<Map<Seq<char>, Seq<char>>>));
    assert(extract_from(outside_row(), close) == extract_from(outside_row(), close.drop_first()));
    let all = rows.map_values(|r: Seq<(Seq<char>, Seq<char>)>| row_fields(r));
    assert(all + Seq::<Map<Seq<char>, Seq<char>>>::empty() == all);
    assert forall|i: int, k: Seq<char>| 0 <= i < rows.len() implies
        (#[trigger] all[i].contains_key(k) <==> exists|j: int| 0 <= j < rows[i].len() && rows[i][j].0 == k) by {
        lemma_fold_fields_keys(Map::empty(), rows[i], k);
    }
}

/// A parse error ends extraction: events after it add nothing, and what
/// the events before it give comes out unchanged.
pub proof fn lemma_error_truncates(s: RowState, before: Seq<EventView>, message: Seq<char>, after: Seq<EventView>)
    ensures
        extract_from(s, before + seq![EventView::Error(message)] + after) == extract_from(s, before),
    decreases before.len(),
{
    let evs = before + seq![EventView::Error(message)] + after;
    if before.len() == 0 {
        assert(evs[0] == EventView::Error(message));
    } else {
        assert(evs[0] == before[0]);
        if !(before[0] is Error) {
            let (t, out) = row_step(s, before[0]);
            assert(evs.drop_first() == before.drop_first() + seq![EventView::Error(message)] + after);
            lemma_error_truncates(t, before.drop_first(), message, after);
        }
    }
}

/// Truncation on malformed input: a document that is well formed up to its
/// `rows` and malformed after them yields exactly the records of those rows.
pub proof fn lemma_truncated_document(rows: Seq<Seq<(Seq<char>, Seq<char>)>>, message: Seq<char>, after: Seq<EventView>)
    requires
        forall|i: int| 0 <= i < rows.len() ==> well_formed_row(#[trigger] rows[i]),
    ensures
        extract(rows_events(rows) + seq![EventView::Error(message)] + after)
            == rows.map_values(|r: Seq<(Seq<char>, Seq<char>)>| row_fields(r)),
{
    let tail = seq![EventView::Error(message)] + after;
    assert(rows_events(rows) + seq![EventView::Error(message)] + after == rows_events(rows) + tail);
    lemma_rows_then(rows, tail);
    assert(tail[0] is Error);
    let all = rows.map_values(|r: Seq<(Seq<char>, Seq<char>)>| row_fields(r));
    assert(all + Seq::<Map<Seq<char>, Seq<char>>>::empty() == all);
}

} // verus!
