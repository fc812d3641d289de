use vstd::prelude::*;
use crate::monument::{Monument, Field};
use crate::record::{FlatRecord, map_record, mapped_value};
use crate::rows::{read_rows, record_views, extract, xml_events_of};

verus! {

/// Where UNESCO publishes the World Heritage list.
pub const UNESCO_XML: &'static str = "http://whc.unesco.org/en/list/xml/";

/// The catalog document: read from the file `file` when one is given, else
/// downloaded from `UNESCO_XML`. `read_file` reads the file at the path it
/// is given and `download` fetches the address it is given; the outcome of
/// the one called is the result.
pub fn get<R, D>(file: Option<String>, read_file: R, download: D) -> (r: Result<String, String>)
    where
        R: FnOnce(String) -> Result<String, String>,
        D: FnOnce(String) -> Result<String, String>,
    requires
        forall|p: String| read_file.requires((p,)),
        forall|u: String| download.requires((u,)),
    ensures
        match file {
            Some(f) => read_file.ensures((f,), r),
            None => exists|u: String| u@ == UNESCO_XML@ && download.ensures((u,), r),
        },
{
    match file {
        Some(f) => read_file(f),
        None => {
            let u = String::from_str(UNESCO_XML);
            let ghost url = u;
            download(u)
        },
    }
}

/// The monuments of a list of rows, one per row and in order.
pub fn map_records(rows: &Vec<FlatRecord>) -> (r: Vec<Monument>)
    ensures
        r@.len() == rows@.len(),
        forall|i: int| 0 <= i < rows@.len() ==> (#[trigger] r@[i]).id@.len() == 0,
        forall|i: int, f: Field| 0 <= i < rows@.len() ==> #[trigger] r@[i].value_of(f) == mapped_value(rows@[i]@, f),
{
    let mut out: Vec<Monument> = Vec::new();
    let mut i: usize = 0;
    while i < rows.len()
        invariant
            i <= rows@.len(),
            out@.len() == i,
            forall|j: int| 0 <= j < i ==> (#[trigger] out@[j]).id@.len() == 0,
            forall|j: int, f: Field| 0 <= j < i ==> #[trigger] out@[j].value_of(f) == mapped_value(rows@[j]@, f),
        decreases rows.len() - i,
    {
        out.push(map_record(&rows[i]));
        i = i + 1;
    }
    out
}

/// The monuments of the catalog document `doc`: one per `row` element, in
/// document order, up to the first parse error, each read from its row's
/// fields and without an identifier yet.
pub fn read_xml(doc: &str) -> (r: Vec<Monument>)
    ensures
        r@.len() == extract(xml_events_of(doc@)).len(),
        forall|i: int| 0 <= i < r@.len() ==> (#[trigger] r@[i]).id@.len() == 0,
        forall|i: int, f: Field| 0 <= i < r@.len() ==>
            #[trigger] r@[i].value_of(f) == mapped_value(extract(xml_events_of(doc@))[i], f),
{
    let rows = read_rows(doc);
    let r = map_records(&rows);
    assert forall|i: int| 0 <= i < rows@.len() implies #[trigger] rows@[i]@ == extract(xml_events_of(doc@))[i] by {
        assert(record_views(rows@)[i] == rows@[i]@);
    }
    r
}

} // verus!
