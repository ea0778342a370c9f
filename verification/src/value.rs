//! OData primitive values and their literal forms.
//!
//! - Strings are single-quoted, with embedded quotes doubled: `'it''s'`
//! - Datetimes are bare ISO8601: `2024-01-01T00:00:00.000Z`
//! - GUIDs are bare: `01234567-89ab-cdef-0123-456789abcdef`
//! - Booleans are lowercase: `true` / `false`
//! - Null is `null`

use vstd::prelude::*;
use vstd::std_specs::cmp::PartialEqSpecImpl;

use crate::text::{
    ends_with_char, escape_quotes, has_char, same_text, int_text, push_char, push_escaped, push_int,
};

verus! {

/// A floating-point number, held as the decimal text that Rust's `Display`
/// writes for it (`100`, `99.99`, `-0.5`, and `NaN`, `inf`, `-inf` for the
/// values that are not finite).
///
/// `==` compares as floats do on these texts: `NaN` equals nothing, `0` and
/// `-0` are equal, and any other two texts are equal when they are the same.
#[derive(Debug)]
pub struct Decimal(pub String);

/// Whether a float's decimal text is zero (`0` or `-0`).
pub open spec fn zero_text(t: Seq<char>) -> bool {
    t == "0"@ || t == "-0"@
}

/// Whether two floats, given by their decimal texts, are equal as floats.
pub open spec fn float_eq(a: Seq<char>, b: Seq<char>) -> bool {
    if a == "NaN"@ || b == "NaN"@ {
        false
    } else if zero_text(a) && zero_text(b) {
        true
    } else {
        a == b
    }
}

impl PartialEq for Decimal {
    fn eq(&self, other: &Decimal) -> (r: bool) {
        let a = self.0.as_str();
        let b = other.0.as_str();
        if same_text(a, "NaN") || same_text(b, "NaN") {
            false
        } else if (same_text(a, "0") || same_text(a, "-0")) && (same_text(b, "0") || same_text(
            b,
            "-0",
        )) {
            true
        } else {
            same_text(a, b)
        }
    }
}

impl PartialEqSpecImpl for Decimal {
    open spec fn obeys_eq_spec() -> bool {
        true
    }

    open spec fn eq_spec(&self, other: &Decimal) -> bool {
        float_eq(self.0@, other.0@)
    }
}

impl Decimal {
    /// Wraps the decimal text of a number.
    pub fn new(text: &str) -> (d: Decimal)
        ensures
            d.0@ == text@,
    {
        Decimal(text.to_owned())
    }
}

/// An OData primitive value.
#[derive(Debug, PartialEq)]
pub enum ODataValue {
    String(String),
    Int(i64),
    Float(Decimal),
    Boolean(bool),
    DateTime(String),
    Date(String),
    TimeOfDay(String),
    Guid(String),
    Null,
}

/// The text of a quoted OData string literal.
pub open spec fn quoted(s: Seq<char>) -> Seq<char> {
    seq!['\''] + escape_quotes(s) + seq!['\'']
}

/// Whether a float's decimal text is one of `NaN`, `inf` and `-inf`.
pub open spec fn non_finite(t: Seq<char>) -> bool {
    t == "NaN"@ || t == "inf"@ || t == "-inf"@
}

/// The literal of a float: OData's `NaN`, `INF` and `-INF` for the values
/// that are not finite; otherwise its decimal text, with `.0` appended when
/// the text has no decimal point.
pub open spec fn float_text(t: Seq<char>) -> Seq<char> {
    if t == "NaN"@ {
        "NaN"@
    } else if t == "inf"@ {
        "INF"@
    } else if t == "-inf"@ {
        "-INF"@
    } else if t.contains('.') {
        t
    } else {
        t + seq!['.', '0']
    }
}

/// `true` or `false`.
pub open spec fn bool_text(b: bool) -> Seq<char> {
    if b {
        seq!['t', 'r', 'u', 'e']
    } else {
        seq!['f', 'a', 'l', 's', 'e']
    }
}

/// The OData literal of a value.
pub open spec fn value_text(v: ODataValue) -> Seq<char> {
    match v {
        ODataValue::String(s) => quoted(s@),
        ODataValue::Int(n) => int_text(n as int),
        ODataValue::Float(d) => float_text(d.0@),
        ODataValue::Boolean(b) => bool_text(b),
        ODataValue::DateTime(s) => s@,
        ODataValue::Date(s) => s@,
        ODataValue::TimeOfDay(s) => s@,
        ODataValue::Guid(s) => s@,
        ODataValue::Null => seq!['n', 'u', 'l', 'l'],
    }
}

/// The text of a datetime literal made from `s`: `s` itself when it ends
/// in `Z` or `z`, else `s` followed by `Z`.
pub open spec fn datetime_text(s: Seq<char>) -> Seq<char> {
    if s.len() > 0 && (s.last() == 'Z' || s.last() == 'z') {
        s
    } else {
        s.push('Z')
    }
}

/// Appends `true` or `false`.
pub(crate) fn push_bool(out: &mut String, b: bool)
    ensures
        final(out)@ == old(out)@ + bool_text(b),
{
    if b {
        push_char(out, 't');
        push_char(out, 'r');
        push_char(out, 'u');
        push_char(out, 'e');
    } else {
        push_char(out, 'f');
        push_char(out, 'a');
        push_char(out, 'l');
        push_char(out, 's');
        push_char(out, 'e');
    }
    assert(final(out)@ =~= old(out)@ + bool_text(b));
}

impl ODataValue {
    /// Creates a datetime literal. Input should be ISO8601.
    /// A trailing `Z` is appended if not present.
    pub fn datetime(s: &str) -> (v: ODataValue)
        ensures
            v matches ODataValue::DateTime(t) && t@ == datetime_text(s@),
    {
        let mut t = s.to_owned();
        if !(ends_with_char(s, 'Z') || ends_with_char(s, 'z')) {
            push_char(&mut t, 'Z');
        }
        ODataValue::DateTime(t)
    }

    /// Creates a date literal (no time component).
    pub fn date(s: &str) -> (v: ODataValue)
        ensures
            v matches ODataValue::Date(t) && t@ == s@,
    {
        ODataValue::Date(s.to_owned())
    }

    /// Creates a time-of-day literal.
    pub fn time_of_day(s: &str) -> (v: ODataValue)
        ensures
            v matches ODataValue::TimeOfDay(t) && t@ == s@,
    {
        ODataValue::TimeOfDay(s.to_owned())
    }

    /// Creates a GUID literal.
    pub fn guid(s: &str) -> (v: ODataValue)
        ensures
            v matches ODataValue::Guid(t) && t@ == s@,
    {
        ODataValue::Guid(s.to_owned())
    }

    /// Appends this value's OData literal.
    pub(crate) fn push_odata(&self, out: &mut String)
        ensures
            final(out)@ == old(out)@ + value_text(*self),
    {
        match self {
            ODataValue::String(s) => {
                push_char(out, '\'');
                push_escaped(out, s.as_str());
                push_char(out, '\'');
                assert(final(out)@ =~= old(out)@ + value_text(*self));
            },
            ODataValue::Int(n) => {
                push_int(out, *n);
            },
            ODataValue::Float(d) => {
                let t = format_float(d.0.as_str());
                out.append(t.as_str());
            },
            ODataValue::Boolean(b) => {
                push_bool(out, *b);
            },
            ODataValue::DateTime(s) => {
                out.append(s.as_str());
            },
            ODataValue::Date(s) => {
                out.append(s.as_str());
            },
            ODataValue::TimeOfDay(s) => {
                out.append(s.as_str());
            },
            ODataValue::Guid(s) => {
                out.append(s.as_str());
            },
            ODataValue::Null => {
                push_char(out, 'n');
                push_char(out, 'u');
                push_char(out, 'l');
                push_char(out, 'l');
                assert(final(out)@ =~= old(out)@ + value_text(*self));
            },
        }
    }

    /// Serializes this value to its OData literal representation.
    pub fn to_odata_string(&self) -> (s: String)
        ensures
            s@ == value_text(*self),
    {
        let mut s = String::new();
        self.push_odata(&mut s);
        assert(s@ =~= value_text(*self));
        s
    }
}

/// Formats the decimal text of a float: the OData keywords for values
/// that are not finite, else the text with a decimal point always present.
fn format_float(t: &str) -> (s: String)
    ensures
        s@ == float_text(t@),
        !non_finite(t@) ==> s@.contains('.'),
{
    if same_text(t, "NaN") {
        return "NaN".to_owned();
    }
    if same_text(t, "inf") {
        return "INF".to_owned();
    }
    if same_text(t, "-inf") {
        return "-INF".to_owned();
    }
    let mut s = t.to_owned();
    if !has_char(t, '.') {
        push_char(&mut s, '.');
        push_char(&mut s, '0');
        assert(s@[s@.len() - 2] == '.');
    }
    s
}

impl Clone for Decimal {
    fn clone(&self) -> (res: Self)
        ensures
            res == *self,
    {
        Decimal(self.0.clone())
    }
}

impl Clone for ODataValue {
    fn clone(&self) -> (res: Self)
        ensures
            res == *self,
    {
        match self {
            ODataValue::String(s) => ODataValue::String(s.clone()),
            ODataValue::Int(n) => ODataValue::Int(*n),
            ODataValue::Float(d) => ODataValue::Float(d.clone()),
            ODataValue::Boolean(b) => ODataValue::Boolean(*b),
            ODataValue::DateTime(s) => ODataValue::DateTime(s.clone()),
            ODataValue::Date(s) => ODataValue::Date(s.clone()),
            ODataValue::TimeOfDay(s) => ODataValue::TimeOfDay(s.clone()),
            ODataValue::Guid(s) => ODataValue::Guid(s.clone()),
            ODataValue::Null => ODataValue::Null,
        }
    }
}

// ── Conversion traits ──────────────────────────────────────────────

/// Types that can be converted into an OData literal value.
pub trait IntoODataValue {
    fn into_odata_value(self) -> ODataValue;
}

impl<'a> IntoODataValue for &'a str {
    fn into_odata_value(self) -> (v: ODataValue)
        ensures
            v matches ODataValue::String(s) && s@ == self@,
    {
        ODataValue::String(self.to_owned())
    }
}

impl IntoODataValue for String {
    fn into_odata_value(self) -> (v: ODataValue)
        ensures
            v == ODataValue::String(self),
    {
        ODataValue::String(self)
    }
}

impl IntoODataValue for i32 {
    fn into_odata_value(self) -> (v: ODataValue)
        ensures
            v == ODataValue::Int(self as i64),
    {
        ODataValue::Int(self as i64)
    }
}

impl IntoODataValue for i64 {
    fn into_odata_value(self) -> (v: ODataValue)
        ensures
            v == ODataValue::Int(self),
    {
        ODataValue::Int(self)
    }
}

impl IntoODataValue for Decimal {
    fn into_odata_value(self) -> (v: ODataValue)
        ensures
            v == ODataValue::Float(self),
    {
        ODataValue::Float(self)
    }
}

impl IntoODataValue for bool {
    fn into_odata_value(self) -> (v: ODataValue)
        ensures
            v == ODataValue::Boolean(self),
    {
        ODataValue::Boolean(self)
    }
}

impl IntoODataValue for ODataValue {
    fn into_odata_value(self) -> (v: ODataValue)
        ensures
            v == self,
    {
        self
    }
}

// ── Marker traits for field type constraints ────────────────────────

/// Marker: types that support ordering operators (gt, lt, ge, le).
pub trait ODataOrd {}

impl ODataOrd for Decimal {}

impl ODataOrd for i32 {}

impl ODataOrd for i64 {}

// String is ordered in OData (lexicographic).
impl ODataOrd for String {}

/// Marker: string-like types that support contains/startswith/endswith.
pub trait ODataStringLike {}

impl ODataStringLike for String {}

} // verus!
