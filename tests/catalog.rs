use std::cell::RefCell;
use whlp::catalog::{get, map_records, UNESCO_XML};
use whlp::record::FlatRecord;

#[test]
fn get_reads_the_given_file() {
    let r = get(
        Some("list.xml".to_string()),
        |p: String| Ok(format!("read {}", p)),
        |_u: String| Err("no download expected".to_string()),
    );
    assert_eq!(r, Ok("read list.xml".to_string()));
}

#[test]
fn get_downloads_without_file() {
    let seen = RefCell::new(String::new());
    let r = get(
        None,
        |_p: String| Err("no file expected".to_string()),
        |u: String| {
            *seen.borrow_mut() = u;
            Err("offline".to_string())
        },
    );
    assert_eq!(r, Err("offline".to_string()));
    assert_eq!(seen.into_inner(), "http://whc.unesco.org/en/list/xml/");
    assert_eq!(UNESCO_XML, "http://whc.unesco.org/en/list/xml/");
}

#[test]
fn map_records_keeps_order() {
    let mut a = FlatRecord::new();
    a.set("site".to_string(), "First".to_string());
    let mut b = FlatRecord::new();
    b.set("site".to_string(), "Second".to_string());
    b.set("revision".to_string(), "2".to_string());
    let ms = map_records(&vec![a, b]);
    assert_eq!(ms.len(), 2);
    assert_eq!(ms[0].site, Some("First".to_string()));
    assert_eq!(ms[1].site, Some("Second".to_string()));
    assert_eq!(ms[1].revision, Some(2));
}
