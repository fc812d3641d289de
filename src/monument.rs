use vstd::prelude::*;
use crate::text::{same_text, is_digit, digits_value, all_digits};

verus! {

/// Relies on chrono's `Utc::now` and `DateTime::timestamp`: the current time
/// in whole seconds since the Unix epoch. Nothing is promised of its value.
#[verifier::external_body]
pub(crate) fn now_timestamp() -> (r: i64) {
    chrono::Utc::now().timestamp()
}

/// Relies on uuid's `Uuid::new_v4` and its `Hyphenated` form: a fresh random
/// identifier, written in `Hyphenated::LENGTH` (36) ASCII characters.
#[verifier::external_body]
pub(crate) fn fresh_id() -> (r: String)
    ensures
        r@.len() == 36,
{
    uuid::Uuid::new_v4().hyphenated().to_string()
}

/// The integer that `s` writes in decimal: an optional `+` or `-`, then one
/// or more ASCII digits and nothing else, within the range of `i32`.
pub open spec fn int_of_text(s: Seq<char>) -> Option<int> {
    let signed = s.len() > 0 && (s[0] == '+' || s[0] == '-');
    let digits = if signed { s.drop_first() } else { s };
    let magnitude = digits_value(digits);
    let v = if signed && s[0] == '-' { -magnitude } else { magnitude };
    if digits.len() > 0 && all_digits(digits) && i32::MIN <= v <= i32::MAX {
        Some(v)
    } else {
        None
    }
}

/// Relies on std's `str::parse::<i32>` (`i32::from_str`), which accepts an
/// optional sign followed by decimal digits only, and fails on overflow.
#[verifier::external_body]
pub(crate) fn parse_i32(s: &str) -> (r: Option<i32>)
    ensures
        r is Some <==> int_of_text(s@) is Some,
        r matches Some(n) ==> n as int == int_of_text(s@)->0,
{
    s.parse::<i32>().ok()
}

/// The number of ASCII digits in `s` from position `i` on, up to the first
/// character that is not one.
pub open spec fn digit_run(s: Seq<char>, i: int) -> nat
    decreases s.len() - i,
{
    if 0 <= i < s.len() && is_digit(s[i]) {
        1 + digit_run(s, i + 1)
    } else {
        0
    }
}

/// 1 when `s` holds a sign (`+` or `-`) at position `i`, else 0.
pub open spec fn sign_at(s: Seq<char>, i: int) -> int {
    if 0 <= i < s.len() && (s[i] == '+' || s[i] == '-') {
        1
    } else {
        0
    }
}

/// A finite decimal number: an optional sign; digits with at most one
/// decimal point, at least one digit in all; then an optional exponent,
/// which is `e` or `E`, an optional sign and one or more digits.
pub open spec fn is_decimal_number(s: Seq<char>) -> bool {
    let whole_start = sign_at(s, 0);
    let whole = digit_run(s, whole_start);
    let point = whole_start + whole;
    let has_point = point < s.len() && s[point] == '.';
    let fraction = if has_point { digit_run(s, point + 1) as int } else { 0 };
    let mantissa_end = if has_point { point + 1 + fraction } else { point };
    let has_exponent = mantissa_end < s.len() && (s[mantissa_end] == 'e' || s[mantissa_end] == 'E');
    let exponent_start = mantissa_end + 1 + sign_at(s, mantissa_end + 1);
    let exponent = if has_exponent { digit_run(s, exponent_start) as int } else { 0 };
    let end = if has_exponent { exponent_start + exponent } else { mantissa_end };
    &&& whole + fraction > 0
    &&& (has_exponent ==> exponent > 0)
    &&& end == s.len()
}

fn sign_len(s: &str, n: usize, i: usize) -> (r: usize)
    requires
        n == s@.len(),
        i <= n,
    ensures
        r == sign_at(s@, i as int),
{
    if i < n {
        let c = s.get_char(i);
        if c == '+' || c == '-' {
            return 1;
        }
    }
    0
}

fn skip_digits(s: &str, n: usize, i: usize) -> (r: usize)
    requires
        n == s@.len(),
        i <= n,
    ensures
        r == i + digit_run(s@, i as int),
        r <= n,
{
    let mut j = i;
    while j < n
        invariant
            n == s@.len(),
            i <= j <= n,
            digit_run(s@, i as int) == (j - i) + digit_run(s@, j as int),
        decreases n - j,
    {
        let c = s.get_char(j);
        if !('0' <= c && c <= '9') {
            return j;
        }
        j = j + 1;
    }
    j
}

/// A geographic coordinate in decimal degrees, kept as the decimal text that
/// gave it, so that it is written out again exactly as it was read.
#[derive(Clone, Debug, PartialEq)]
pub struct Coordinate {
    text: String,
}

impl View for Coordinate {
    type V = Seq<char>;

    closed spec fn view(&self) -> Seq<char> {
        self.text@
    }
}

impl Coordinate {
    /// The coordinate that `s` writes, if `s` is a decimal number.
    pub fn parse(s: &str) -> (r: Option<Coordinate>)
        ensures
            r is Some <==> is_decimal_number(s@),
            r matches Some(c) ==> c@ == s@,
    {
        let n = s.unicode_len();
        let whole_start = sign_len(s, n, 0);
        let point = skip_digits(s, n, whole_start);
        let has_point = point < n && s.get_char(point) == '.';
        let mantissa_end = if has_point {
            skip_digits(s, n, point + 1)
        } else {
            point
        };
        let has_digits = point > whole_start || mantissa_end > point + 1;
        let has_exponent = mantissa_end < n && {
            let c = s.get_char(mantissa_end);
            c == 'e' || c == 'E'
        };
        let end = if has_exponent {
            let exponent_start = mantissa_end + 1 + sign_len(s, n, mantissa_end + 1);
            if exponent_start > n {
                return None;
            }
            let e = skip_digits(s, n, exponent_start);
            if e == exponent_start {
                return None;
            }
            e
        } else {
            mantissa_end
        };
        if has_digits && end == n {
            Some(Coordinate { text: String::from_str(s) })
        } else {
            None
        }
    }

    /// A copy of the coordinate.
    pub fn copy(&self) -> (r: Coordinate)
        ensures
            r == *self,
    {
        Coordinate { text: self.text.clone() }
    }

    /// The decimal text of the coordinate.
    pub fn as_str(&self) -> (r: &str)
        ensures
            r@ == self@,
    {
        self.text.as_str()
    }
}

/// The descriptive fields of a monument that a catalog row may give.
#[derive(Clone, Copy, Debug, PartialEq, Eq)]
pub enum Field {
    Category,
    CriteriaTxt,
    Danger,
    DateInscribed,
    Extension,
    HistoricalDescription,
    HttpUrl,
    IdNumber,
    ImageUrl,
    IsoCode,
    Justification,
    Latitude,
    Longitude,
    Location,
    LongDescription,
    Region,
    Revision,
    SecondaryDates,
    ShortDescription,
    Site,
    States,
    Transboundary,
    UniqueNumber,
}

/// How the raw text of a field is read.
pub enum FieldKind {
    Text,
    Number,
    Coordinate,
}

/// The value of a field of a monument, in the terms of the contracts.
pub enum FieldValue {
    Absent,
    Text(Seq<char>),
    Number(int),
}

/// The tag name under which a catalog row gives the field.
pub open spec fn field_name(f: Field) -> Seq<char> {
    match f {
        Field::Category => "category"@,
        Field::CriteriaTxt => "criteria_txt"@,
        Field::Danger => "danger"@,
        Field::DateInscribed => "date_inscribed"@,
        Field::Extension => "extension"@,
        Field::HistoricalDescription => "historical_description"@,
        Field::HttpUrl => "http_url"@,
        Field::IdNumber => "id_number"@,
        Field::ImageUrl => "image_url"@,
        Field::IsoCode => "iso_code"@,
        Field::Justification => "justification"@,
        Field::Latitude => "latitude"@,
        Field::Longitude => "longitude"@,
        Field::Location => "location"@,
        Field::LongDescription => "long_description"@,
        Field::Region => "region"@,
        Field::Revision => "revision"@,
        Field::SecondaryDates => "secondary_dates"@,
        Field::ShortDescription => "short_description"@,
        Field::Site => "site"@,
        Field::States => "states"@,
        Field::Transboundary => "transboundary"@,
        Field::UniqueNumber => "unique_number"@,
    }
}

pub open spec fn field_kind(f: Field) -> FieldKind {
    match f {
        Field::Extension | Field::IdNumber | Field::Revision | Field::Transboundary
        | Field::UniqueNumber => FieldKind::Number,
        Field::Latitude | Field::Longitude => FieldKind::Coordinate,
        _ => FieldKind::Text,
    }
}

/// The field that a tag name stands for; `None` for a name of no field.
pub open spec fn field_named(name: Seq<char>) -> Option<Field> {
    if name == field_name(Field::Category) { Some(Field::Category) }
    else if name == field_name(Field::CriteriaTxt) { Some(Field::CriteriaTxt) }
    else if name == field_name(Field::Danger) { Some(Field::Danger) }
    else if name == field_name(Field::DateInscribed) { Some(Field::DateInscribed) }
    else if name == field_name(Field::Extension) { Some(Field::Extension) }
    else if name == field_name(Field::HistoricalDescription) { Some(Field::HistoricalDescription) }
    else if name == field_name(Field::HttpUrl) { Some(Field::HttpUrl) }
    else if name == field_name(Field::IdNumber) { Some(Field::IdNumber) }
    else if name == field_name(Field::ImageUrl) { Some(Field::ImageUrl) }
    else if name == field_name(Field::IsoCode) { Some(Field::IsoCode) }
    else if name == field_name(Field::Justification) { Some(Field::Justification) }
    else if name == field_name(Field::Latitude) { Some(Field::Latitude) }
    else if name == field_name(Field::Longitude) { Some(Field::Longitude) }
    else if name == field_name(Field::Location) { Some(Field::Location) }
    else if name == field_name(Field::LongDescription) { Some(Field::LongDescription) }
    else if name == field_name(Field::Region) { Some(Field::Region) }
    else if name == field_name(Field::Revision) { Some(Field::Revision) }
    else if name == field_name(Field::SecondaryDates) { Some(Field::SecondaryDates) }
    else if name == field_name(Field::ShortDescription) { Some(Field::ShortDescription) }
    else if name == field_name(Field::Site) { Some(Field::Site) }
    else if name == field_name(Field::States) { Some(Field::States) }
    else if name == field_name(Field::Transboundary) { Some(Field::Transboundary) }
    else if name == field_name(Field::UniqueNumber) { Some(Field::UniqueNumber) }
    else { None }
}

/// What a field holds when its raw text is `raw`: text as it is; a number
/// or a coordinate only when the text is one, else nothing.
pub open spec fn coerce(f: Field, raw: Seq<char>) -> FieldValue {
    match field_kind(f) {
        FieldKind::Text => FieldValue::Text(raw),
        FieldKind::Number => match int_of_text(raw) {
            Some(n) => FieldValue::Number(n),
            None => FieldValue::Absent,
        },
        FieldKind::Coordinate => if is_decimal_number(raw) {
            FieldValue::Text(raw)
        } else {
            FieldValue::Absent
        },
    }
}

pub open spec fn text_value(o: Option<String>) -> FieldValue {
    match o {
        Some(s) => FieldValue::Text(s@),
        None => FieldValue::Absent,
    }
}

pub open spec fn number_value(o: Option<i32>) -> FieldValue {
    match o {
        Some(n) => FieldValue::Number(n as int),
        None => FieldValue::Absent,
    }
}

pub open spec fn coordinate_value(o: Option<Coordinate>) -> FieldValue {
    match o {
        Some(c) => FieldValue::Text(c@),
        None => FieldValue::Absent,
    }
}

/// Each field's tag name leads back to the field.
pub proof fn lemma_field_name_named(f: Field)
    ensures
        field_named(field_name(f)) == Some(f),
{
    reveal_strlit("category");
    assert("category"@.len() == 8 && "category"@[0] == 'c');
    reveal_strlit("criteria_txt");
    assert("criteria_txt"@.len() == 12 && "criteria_txt"@[0] == 'c');
    reveal_strlit("danger");
    assert("danger"@.len() == 6 && "danger"@[0] == 'd');
    reveal_strlit("date_inscribed");
    assert("date_inscribed"@.len() == 14 && "date_inscribed"@[0] == 'd');
    reveal_strlit("extension");
    assert("extension"@.len() == 9 && "extension"@[0] == 'e');
    reveal_strlit("historical_description");
    assert("historical_description"@.len() == 22 && "historical_description"@[0] == 'h');
    reveal_strlit("http_url");
    assert("http_url"@.len() == 8 && "http_url"@[0] == 'h');
    reveal_strlit("id_number");
    assert("id_number"@.len() == 9 && "id_number"@[0] == 'i' && "id_number"@[1] == 'd');
    reveal_strlit("image_url");
    assert("image_url"@.len() == 9 && "image_url"@[0] == 'i' && "image_url"@[1] == 'm');
    reveal_strlit("iso_code");
    assert("iso_code"@.len() == 8 && "iso_code"@[0] == 'i');
    reveal_strlit("justification");
    assert("justification"@.len() == 13 && "justification"@[0] == 'j');
    reveal_strlit("latitude");
    assert("latitude"@.len() == 8 && "latitude"@[0] == 'l' && "latitude"@[1] == 'a');
    reveal_strlit("longitude");
    assert("longitude"@.len() == 9 && "longitude"@[0] == 'l');
    reveal_strlit("location");
    assert("location"@.len() == 8 && "location"@[0] == 'l' && "location"@[1] == 'o');
    reveal_strlit("long_description");
    assert("long_description"@.len() == 16 && "long_description"@[0] == 'l');
    reveal_strlit("region");
    assert("region"@.len() == 6 && "region"@[0] == 'r');
    reveal_strlit("revision");
    assert("revision"@.len() == 8 && "revision"@[0] == 'r');
    reveal_strlit("secondary_dates");
    assert("secondary_dates"@.len() == 15 && "secondary_dates"@[0] == 's');
    reveal_strlit("short_description");
    assert("short_description"@.len() == 17 && "short_description"@[0] == 's');
    reveal_strlit("site");
    assert("site"@.len() == 4 && "site"@[0] == 's');
    reveal_strlit("states");
    assert("states"@.len() == 6 && "states"@[0] == 's');
    reveal_strlit("transboundary");
    assert("transboundary"@.len() == 13 && "transboundary"@[0] == 't');
    reveal_strlit("unique_number");
    assert("unique_number"@.len() == 13 && "unique_number"@[0] == 'u');
    match f {
        Field::Category => {},
        Field::CriteriaTxt => {},
        Field::Danger => {},
        Field::DateInscribed => {},
        Field::Extension => {},
        Field::HistoricalDescription => {},
        Field::HttpUrl => {},
        Field::IdNumber => {},
        Field::ImageUrl => {},
        Field::IsoCode => {},
        Field::Justification => {},
        Field::Latitude => {},
        Field::Longitude => {},
        Field::Location => {},
        Field::LongDescription => {},
        Field::Region => {},
        Field::Revision => {},
        Field::SecondaryDates => {},
        Field::ShortDescription => {},
        Field::Site => {},
        Field::States => {},
        Field::Transboundary => {},
        Field::UniqueNumber => {},
    }
}

/// The field that a tag name stands for, if any.
pub fn field_from_name(name: &str) -> (r: Option<Field>)
    ensures
        r == field_named(name@),
{
    if same_text(name, "category") { Some(Field::Category) }
    else if same_text(name, "criteria_txt") { Some(Field::CriteriaTxt) }
    else if same_text(name, "danger") { Some(Field::Danger) }
    else if same_text(name, "date_inscribed") { Some(Field::DateInscribed) }
    else if same_text(name, "extension") { Some(Field::Extension) }
    else if same_text(name, "historical_description") { Some(Field::HistoricalDescription) }
    else if same_text(name, "http_url") { Some(Field::HttpUrl) }
    else if same_text(name, "id_number") { Some(Field::IdNumber) }
    else if same_text(name, "image_url") { Some(Field::ImageUrl) }
    else if same_text(name, "iso_code") { Some(Field::IsoCode) }
    else if same_text(name, "justification") { Some(Field::Justification) }
    else if same_text(name, "latitude") { Some(Field::Latitude) }
    else if same_text(name, "longitude") { Some(Field::Longitude) }
    else if same_text(name, "location") { Some(Field::Location) }
    else if same_text(name, "long_description") { Some(Field::LongDescription) }
    else if same_text(name, "region") { Some(Field::Region) }
    else if same_text(name, "revision") { Some(Field::Revision) }
    else if same_text(name, "secondary_dates") { Some(Field::SecondaryDates) }
    else if same_text(name, "short_description") { Some(Field::ShortDescription) }
    else if same_text(name, "site") { Some(Field::Site) }
    else if same_text(name, "states") { Some(Field::States) }
    else if same_text(name, "transboundary") { Some(Field::Transboundary) }
    else if same_text(name, "unique_number") { Some(Field::UniqueNumber) }
    else { None }
}

/// One heritage site of the catalog.
#[derive(Clone, Debug, PartialEq)]
pub struct Monument {
    pub id: String,
    pub category: Option<String>,
    pub criteria_txt: Option<String>,
    pub danger: Option<String>,
    pub date_inscribed: Option<String>,
    pub extension: Option<i32>,
    pub historical_description: Option<String>,
    pub http_url: Option<String>,
    pub id_number: Option<i32>,
    pub image_url: Option<String>,
    pub iso_code: Option<String>,
    pub justification: Option<String>,
    pub latitude: Option<Coordinate>,
    pub longitude: Option<Coordinate>,
    pub location: Option<String>,
    pub long_description: Option<String>,
    pub region: Option<String>,
    pub revision: Option<i32>,
    pub secondary_dates: Option<String>,
    pub short_description: Option<String>,
    pub site: Option<String>,
    pub states: Option<String>,
    pub transboundary: Option<i32>,
    pub unique_number: Option<i32>,
    /// Seconds since the Unix epoch.
    pub created_at: i64,
    /// Seconds since the Unix epoch.
    pub updated_at: i64,
}

impl Monument {
    /// The value that the monument holds for a field.
    pub open spec fn value_of(&self, f: Field) -> FieldValue {
        match f {
            Field::Category => text_value(self.category),
            Field::CriteriaTxt => text_value(self.criteria_txt),
            Field::Danger => text_value(self.danger),
            Field::DateInscribed => text_value(self.date_inscribed),
            Field::Extension => number_value(self.extension),
            Field::HistoricalDescription => text_value(self.historical_description),
            Field::HttpUrl => text_value(self.http_url),
            Field::IdNumber => number_value(self.id_number),
            Field::ImageUrl => text_value(self.image_url),
            Field::IsoCode => text_value(self.iso_code),
            Field::Justification => text_value(self.justification),
            Field::Latitude => coordinate_value(self.latitude),
            Field::Longitude => coordinate_value(self.longitude),
            Field::Location => text_value(self.location),
            Field::LongDescription => text_value(self.long_description),
            Field::Region => text_value(self.region),
            Field::Revision => number_value(self.revision),
            Field::SecondaryDates => text_value(self.secondary_dates),
            Field::ShortDescription => text_value(self.short_description),
            Field::Site => text_value(self.site),
            Field::States => text_value(self.states),
            Field::Transboundary => number_value(self.transboundary),
            Field::UniqueNumber => number_value(self.unique_number),
        }
    }

    /// A monument with no identifier and no field set, created now.
    pub fn new() -> (r: Monument)
        ensures
            r.id@.len() == 0,
            forall|f: Field| r.value_of(f) == FieldValue::Absent,
            r.created_at == r.updated_at,
    {
        let now = now_timestamp();
        Monument {
            id: String::new(),
            category: None,
            criteria_txt: None,
            danger: None,
            date_inscribed: None,
            extension: None,
            historical_description: None,
            http_url: None,
            id_number: None,
            image_url: None,
            iso_code: None,
            justification: None,
            latitude: None,
            longitude: None,
            location: None,
            long_description: None,
            region: None,
            revision: None,
            secondary_dates: None,
            short_description: None,
            site: None,
            states: None,
            transboundary: None,
            unique_number: None,
            created_at: now,
            updated_at: now,
        }
    }

    /// Gives the monument a fresh identifier; nothing else changes.
    pub fn assign_fresh_id(&mut self)
        ensures
            final(self).id@.len() == 36,
            final(self).created_at == old(self).created_at,
            final(self).updated_at == old(self).updated_at,
            forall|f: Field| #[trigger] final(self).value_of(f) == old(self).value_of(f),
    {
        self.id = fresh_id();
    }

    /// Sets the field named `field` from its raw text `value`; a name of no
    /// field is ignored, and a value that the field cannot read unsets it.
    pub fn set(&mut self, field: &str, value: &str)
        ensures
            final(self).id == old(self).id,
            final(self).created_at == old(self).created_at,
            final(self).updated_at == old(self).updated_at,
            forall|f: Field| #[trigger] final(self).value_of(f) == if field_named(field@) == Some(f) {
                coerce(f, value@)
            } else {
                old(self).value_of(f)
            },
    {
        match field_from_name(field) {
            Some(f) => self.set_field(f, value),
            None => {},
        }
    }

    fn set_field(&mut self, f: Field, value: &str)
        ensures
            final(self).id == old(self).id,
            final(self).created_at == old(self).created_at,
            final(self).updated_at == old(self).updated_at,
            forall|g: Field| #[trigger] final(self).value_of(g) == if g == f {
                coerce(f, value@)
            } else {
                old(self).value_of(g)
            },
    {
        match f {
            Field::Category => self.category = Some(String::from_str(value)),
            Field::CriteriaTxt => self.criteria_txt = Some(String::from_str(value)),
            Field::Danger => self.danger = Some(String::from_str(value)),
            Field::DateInscribed => self.date_inscribed = Some(String::from_str(value)),
            Field::Extension => self.extension = parse_i32(value),
            Field::HistoricalDescription => self.historical_description = Some(String::from_str(value)),
            Field::HttpUrl => self.http_url = Some(String::from_str(value)),
            Field::IdNumber => self.id_number = parse_i32(value),
            Field::ImageUrl => self.image_url = Some(String::from_str(value)),
            Field::IsoCode => self.iso_code = Some(String::from_str(value)),
            Field::Justification => self.justification = Some(String::from_str(value)),
            Field::Latitude => self.latitude = Coordinate::parse(value),
            Field::Longitude => self.longitude = Coordinate::parse(value),
            Field::Location => self.location = Some(String::from_str(value)),
            Field::LongDescription => self.long_description = Some(String::from_str(value)),
            Field::Region => self.region = Some(String::from_str(value)),
            Field::Revision => self.revision = parse_i32(value),
            Field::SecondaryDates => self.secondary_dates = Some(String::from_str(value)),
            Field::ShortDescription => self.short_description = Some(String::from_str(value)),
            Field::Site => self.site = Some(String::from_str(value)),
            Field::States => self.states = Some(String::from_str(value)),
            Field::Transboundary => self.transboundary = parse_i32(value),
            Field::UniqueNumber => self.unique_number = parse_i32(value),
        }
    }
}

} // verus!
