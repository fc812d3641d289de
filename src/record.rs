use vstd::prelude::*;
use crate::text::same_text;
use crate::monument::{
    Monument, Field, FieldValue, field_name, field_named, field_kind, coerce, int_of_text,
    is_decimal_number, lemma_field_name_named,
};

verus! {

/// The map that a sequence of field writes leaves: the last write of each
/// name wins.
pub open spec fn fields_of(writes: Seq<(String, String)>) -> Map<Seq<char>, Seq<char>>
    decreases writes.len(),
{
    if writes.len() == 0 {
        Map::empty()
    } else {
        fields_of(writes.drop_last()).insert(writes.last().0@, writes.last().1@)
    }
}

/// The raw fields of one catalog row, from field name to text.
pub struct FlatRecord {
    writes: Vec<(String, String)>,
}

impl View for FlatRecord {
    type V = Map<Seq<char>, Seq<char>>;

    closed spec fn view(&self) -> Map<Seq<char>, Seq<char>> {
        fields_of(self.writes@)
    }
}

impl FlatRecord {
    /// A record with no field.
    pub fn new() -> (r: FlatRecord)
        ensures
            r@ == Map::<Seq<char>, Seq<char>>::empty(),
    {
        FlatRecord { writes: Vec::new() }
    }

    /// Sets the field `name` to `value`, replacing any earlier value.
    pub fn set(&mut self, name: String, value: String)
        ensures
            final(self)@ == old(self)@.insert(name@, value@),
    {
        self.writes.push((name, value));
        assert(self.writes@.drop_last() == old(self).writes@);
    }

    /// The value of the field `name`, if the record has it.
    pub fn get(&self, name: &str) -> (r: Option<&String>)
        ensures
            r is Some <==> self@.contains_key(name@),
            r matches Some(v) ==> v@ == self@[name@],
    {
        let mut found: Option<usize> = None;
        let mut i: usize = 0;
        while i < self.writes.len()
            invariant
                i <= self.writes@.len(),
                match found {
                    Some(j) => j < i && fields_of(self.writes@.take(i as int)).contains_key(name@)
                        && fields_of(self.writes@.take(i as int))[name@] == self.writes@[j as int].1@,
                    None => !fields_of(self.writes@.take(i as int)).contains_key(name@),
                },
            decreases self.writes.len() - i,
        {
            assert(self.writes@.take(i + 1).drop_last() == self.writes@.take(i as int));
            if same_text(self.writes[i].0.as_str(), name) {
                found = Some(i);
            }
            i = i + 1;
        }
        assert(self.writes@.take(i as int) == self.writes@);
        match found {
            Some(j) => Some(&self.writes[j].1),
            None => None,
        }
    }
}

/// What a monument mapped from the raw fields `rec` holds for the field `f`.
pub open spec fn mapped_value(rec: Map<Seq<char>, Seq<char>>, f: Field) -> FieldValue {
    if rec.contains_key(field_name(f)) {
        coerce(f, rec[field_name(f)])
    } else {
        FieldValue::Absent
    }
}

/// A tag name stands for a field exactly when it is that field's name.
pub proof fn lemma_named_iff(name: Seq<char>, f: Field)
    ensures
        field_named(name) == Some(f) <==> name == field_name(f),
{
    lemma_field_name_named(f);
}

/// Maps a row's raw fields to a monument: each known field is read from its
/// text, unknown names are ignored, and a field whose text it cannot read
/// stays unset. The monument has no identifier yet.
pub fn map_record(record: &FlatRecord) -> (m: Monument)
    ensures
        m.id@.len() == 0,
        m.created_at == m.updated_at,
        forall|f: Field| #[trigger] m.value_of(f) == mapped_value(record@, f),
{
    let mut m = Monument::new();
    let n = record.writes.len();
    let mut i: usize = 0;
    assert(record.writes@.take(0) == Seq::<(String, String)>::empty());
    while i < n
        invariant
            n == record.writes@.len(),
            i <= n,
            m.id@.len() == 0,
            m.created_at == m.updated_at,
            forall|f: Field| #[trigger] m.value_of(f) == mapped_value(fields_of(record.writes@.take(i as int)), f),
        decreases n - i,
    {
        let ghost before = fields_of(record.writes@.take(i as int));
        let name = &record.writes[i].0;
        let value = &record.writes[i].1;
        m.set(name.as_str(), value.as_str());
        assert(record.writes@.take(i + 1).drop_last() == record.writes@.take(i as int));
        let ghost after = fields_of(record.writes@.take(i + 1));
        assert(after == before.insert(name@, value@));
        assert forall|f: Field| #[trigger] m.value_of(f) == mapped_value(after, f) by {
            lemma_named_iff(name@, f);
        }
        i = i + 1;
    }
    assert(record.writes@.take(n as int) == record.writes@);
    m
}

/// Mapping tolerance: when a row gives a numeric field (a number or a
/// coordinate) a text that is not one, the monument leaves that field
/// unset, and maps every other field as if the text were not there.
pub proof fn lemma_mapping_tolerance(rec: Map<Seq<char>, Seq<char>>, f: Field)
    requires
        rec.contains_key(field_name(f)),
        field_kind(f) is Number && int_of_text(rec[field_name(f)]) is None
            || field_kind(f) is Coordinate && !is_decimal_number(rec[field_name(f)]),
    ensures
        mapped_value(rec, f) == FieldValue::Absent,
        forall|g: Field| g != f ==> #[trigger] mapped_value(rec, g) == mapped_value(rec.remove(field_name(f)), g),
{
    assert forall|g: Field| g != f implies #[trigger] mapped_value(rec, g) == mapped_value(rec.remove(field_name(f)), g) by {
        lemma_field_name_named(g);
        lemma_field_name_named(f);
    }
}

} // verus!
