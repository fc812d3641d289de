use whlp::catalog::read_xml;
use whlp::record::FlatRecord;
use whlp::rows::{extract_records, read_rows, RowExtractor, XmlEvent};

fn start(n: &str) -> XmlEvent {
    XmlEvent::StartElement(n.to_string())
}

fn end(n: &str) -> XmlEvent {
    XmlEvent::EndElement(n.to_string())
}

fn text(s: &str) -> XmlEvent {
    XmlEvent::Characters(s.to_string())
}

fn field(r: &FlatRecord, name: &str) -> Option<String> {
    r.get(name).cloned()
}

#[test]
fn rows_come_out_in_document_order() {
    let doc = "<query>\n  <row>\n    <site>Old Town</site>\n    <category>Cultural</category>\n  </row>\n  <row>\n    <site>Lake</site>\n  </row>\n  <row>\n    <region>Europe</region>\n  </row>\n</query>";
    let rows = read_rows(doc);
    assert_eq!(rows.len(), 3);
    assert_eq!(field(&rows[0], "site"), Some("Old Town".to_string()));
    assert_eq!(field(&rows[0], "category"), Some("Cultural".to_string()));
    assert_eq!(field(&rows[1], "site"), Some("Lake".to_string()));
    assert_eq!(field(&rows[1], "category"), None);
    assert_eq!(field(&rows[2], "site"), None);
    assert_eq!(field(&rows[2], "region"), Some("Europe".to_string()));
}

#[test]
fn empty_document_gives_no_rows() {
    assert_eq!(read_rows("<query></query>").len(), 0);
}

#[test]
fn malformed_tail_keeps_rows_before_it() {
    let doc = "<query><row><site>A</site></row><row><site>B</site></row><row><site>C</bad></row></query>";
    let rows = read_rows(doc);
    assert_eq!(rows.len(), 2);
    assert_eq!(field(&rows[0], "site"), Some("A".to_string()));
    assert_eq!(field(&rows[1], "site"), Some("B".to_string()));
}

#[test]
fn truncated_document_keeps_complete_rows() {
    let rows = read_rows("<query><row><site>A</site></row><row><site>B");
    assert_eq!(rows.len(), 1);
    assert_eq!(field(&rows[0], "site"), Some("A".to_string()));
}

#[test]
fn error_event_stops_extraction() {
    let events = vec![
        start("row"), start("site"), text("A"), end("site"), end("row"),
        XmlEvent::Error("bad".to_string()),
        start("row"), start("site"), text("B"), end("site"), end("row"),
    ];
    let rows = extract_records(&events);
    assert_eq!(rows.len(), 1);
    assert_eq!(field(&rows[0], "site"), Some("A".to_string()));
}

#[test]
fn repeated_field_keeps_last_value() {
    let events = vec![start("row"), start("site"), text("first"), text("second"), end("site"), end("row")];
    let rows = extract_records(&events);
    assert_eq!(rows.len(), 1);
    assert_eq!(field(&rows[0], "site"), Some("second".to_string()));
}

#[test]
fn text_outside_rows_is_ignored() {
    let events = vec![
        start("query"), text("noise"), start("row"), text("before any field"), start("site"), text("S"),
        end("site"), end("row"), text("after"), end("query"),
    ];
    let rows = extract_records(&events);
    assert_eq!(rows.len(), 1);
    assert_eq!(field(&rows[0], "site"), Some("S".to_string()));
    assert_eq!(field(&rows[0], ""), None);
}

#[test]
fn nested_tag_becomes_current_field() {
    let events = vec![
        start("row"), start("site"), start("name"), text("Deep"), end("name"), end("site"), end("row"),
    ];
    let rows = extract_records(&events);
    assert_eq!(field(&rows[0], "name"), Some("Deep".to_string()));
    assert_eq!(field(&rows[0], "site"), None);
}

#[test]
fn extractor_emits_record_at_row_end() {
    let mut ex = RowExtractor::new();
    assert!(ex.step(&start("row")).is_none());
    assert!(ex.step(&start("site")).is_none());
    assert!(ex.step(&text("X")).is_none());
    assert!(ex.step(&end("site")).is_none());
    let r = ex.step(&end("row")).unwrap();
    assert_eq!(field(&r, "site"), Some("X".to_string()));
}

#[test]
fn read_xml_maps_rows_to_monuments() {
    let doc = "<query><row><site>Bamiyan</site><unique_number>208</unique_number><latitude>34.84694</latitude><longitude>67.82525</longitude><extension>abc</extension><unknown>x</unknown></row></query>";
    let ms = read_xml(doc);
    assert_eq!(ms.len(), 1);
    let m = &ms[0];
    assert_eq!(m.id, "");
    assert_eq!(m.site, Some("Bamiyan".to_string()));
    assert_eq!(m.unique_number, Some(208));
    assert_eq!(m.latitude.as_ref().unwrap().as_str(), "34.84694");
    assert_eq!(m.longitude.as_ref().unwrap().as_str(), "67.82525");
    assert_eq!(m.extension, None);
    assert_eq!(m.category, None);
}

#[test]
fn flat_record_set_overwrites() {
    let mut r = FlatRecord::new();
    assert_eq!(r.get("a"), None);
    r.set("a".to_string(), "1".to_string());
    r.set("b".to_string(), "2".to_string());
    r.set("a".to_string(), "3".to_string());
    assert_eq!(field(&r, "a"), Some("3".to_string()));
    assert_eq!(field(&r, "b"), Some("2".to_string()));
}
