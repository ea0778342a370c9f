//! Typed and untyped fields, and the filters built from them.

use std::marker::PhantomData;

use vstd::prelude::*;

use crate::filter::{same_filter, CompareOp, FilterExpr, ODataFilter, StringFunction};
use crate::value::{IntoODataValue, ODataOrd, ODataStringLike, ODataValue};

verus! {

// ── FieldRef (type-erased) ─────────────────────────────────────────

/// A type-erased reference to any field, used for `select` / `orderby`
/// where the value type doesn't matter.
///
/// An implementation written outside Verus keeps the default `name_view`, a
/// name that nothing states; its `field_name` is then taken on trust to
/// return that one name for a given value.
pub trait FieldRef {
    /// The field's name.
    closed spec fn name_view(&self) -> Seq<char> {
        arbitrary()
    }

    /// The field's name, as an OData path.
    fn field_name(&self) -> (s: &str)
        ensures
            s@ == self.name_view(),
    ;
}

// ── Field<T> ───────────────────────────────────────────────────────

/// A typed OData field.
///
/// The type parameter `T` determines which operations are available:
/// - All fields: `eq_value`, `gt_value`, `lt_value`, `is_null`, `is_not_null`, `in_list`
/// - Fields of a value type (`T: IntoODataValue`): `eq`, `ne`
/// - `Field<String>`: `contains`, `starts_with`, `ends_with`
/// - Numeric / orderable fields: `gt`, `ge`, `lt`, `le`
#[derive(Debug)]
pub struct Field<T> {
    name: &'static str,
    _phantom: PhantomData<T>,
}

impl<T> View for Field<T> {
    type V = Seq<char>;

    /// The field's name (an OData path such as `ContentDate/Start`).
    closed spec fn view(&self) -> Seq<char> {
        self.name@
    }
}

/// The comparison filter `field op value`.
pub open spec fn compare_filter(field: Seq<char>, op: CompareOp, value: ODataValue, f: FieldFilter) -> bool {
    f.0 matches FilterExpr::Compare { field: name, op: o, value: v } && name@ == field && o == op
        && v == value
}

/// The string-function filter `func(field, 'value')`.
pub open spec fn string_filter(field: Seq<char>, func: StringFunction, value: Seq<char>, f: FieldFilter) -> bool {
    f.0 matches FilterExpr::StringFunc { func: g, field: name, value: v } && name@ == field && g
        == func && v@ == value
}

/// Builds `field op value`.
fn compare_on(name: &str, op: CompareOp, value: ODataValue) -> (f: FieldFilter)
    ensures
        compare_filter(name@, op, value, f),
{
    FieldFilter(FilterExpr::Compare { field: name.to_owned(), op, value })
}

/// Builds `func(field, 'value')`.
fn string_func_on(name: &str, func: StringFunction, value: &str) -> (f: FieldFilter)
    ensures
        string_filter(name@, func, value@, f),
{
    FieldFilter(FilterExpr::StringFunc { func, field: name.to_owned(), value: value.to_owned() })
}

/// Builds `field eq null`.
fn is_null_on(name: &str) -> (f: FieldFilter)
    ensures
        f.0 matches FilterExpr::IsNull { field } && field@ == name@,
{
    FieldFilter(FilterExpr::IsNull { field: name.to_owned() })
}

/// Builds `field ne null`.
fn is_not_null_on(name: &str) -> (f: FieldFilter)
    ensures
        f.0 matches FilterExpr::IsNotNull { field } && field@ == name@,
{
    FieldFilter(FilterExpr::IsNotNull { field: name.to_owned() })
}

/// Builds `field in (values)`.
fn in_list_on(name: &str, values: Vec<ODataValue>) -> (f: FieldFilter)
    ensures
        f.0 matches FilterExpr::In { field, values: vs } && field@ == name@ && vs == values,
{
    FieldFilter(FilterExpr::In { field: name.to_owned(), values })
}

impl<T> Field<T> {
    /// Creates a new typed field. Use OData path syntax for nested
    /// fields, e.g. `"ContentDate/Start"`.
    pub fn new(name: &'static str) -> (f: Self)
        ensures
            f@ == name@,
    {
        Field { name, _phantom: PhantomData }
    }

    /// A comparison `field op value` with a pre-built `ODataValue`.
    pub fn compare(self, op: CompareOp, value: ODataValue) -> (f: FieldFilter)
        ensures
            compare_filter(self@, op, value, f),
    {
        compare_on(self.name, op, value)
    }

    /// Null check: `field eq null`
    pub fn is_null(self) -> (f: FieldFilter)
        ensures
            f.0 matches FilterExpr::IsNull { field } && field@ == self@,
    {
        is_null_on(self.name)
    }

    /// Not-null check: `field ne null`
    pub fn is_not_null(self) -> (f: FieldFilter)
        ensures
            f.0 matches FilterExpr::IsNotNull { field } && field@ == self@,
    {
        is_not_null_on(self.name)
    }

    /// Equality with a pre-built `ODataValue` (useful for datetime/guid values).
    pub fn eq_value(self, value: ODataValue) -> (f: FieldFilter)
        ensures
            compare_filter(self@, CompareOp::Eq, value, f),
    {
        compare_on(self.name, CompareOp::Eq, value)
    }

    /// Greater-than with a pre-built `ODataValue`.
    pub fn gt_value(self, value: ODataValue) -> (f: FieldFilter)
        ensures
            compare_filter(self@, CompareOp::Gt, value, f),
    {
        compare_on(self.name, CompareOp::Gt, value)
    }

    /// Less-than with a pre-built `ODataValue`.
    pub fn lt_value(self, value: ODataValue) -> (f: FieldFilter)
        ensures
            compare_filter(self@, CompareOp::Lt, value, f),
    {
        compare_on(self.name, CompareOp::Lt, value)
    }

    /// `field in (v1, v2, v3)`
    pub fn in_list(self, values: Vec<ODataValue>) -> (f: FieldFilter)
        ensures
            f.0 matches FilterExpr::In { field, values: vs } && field@ == self@ && vs == values,
    {
        in_list_on(self.name, values)
    }
}

impl<T> Clone for Field<T> {
    fn clone(&self) -> (f: Self)
        ensures
            f == *self,
    {
        *self
    }
}

impl<T> Copy for Field<T> {

}

impl<T> FieldRef for Field<T> {
    open spec fn name_view(&self) -> Seq<char> {
        self@
    }

    fn field_name(&self) -> (s: &str) {
        self.name
    }
}

// Allow &Field<T> as FieldRef too (for slices of references).
impl<'a, T> FieldRef for &'a Field<T> {
    open spec fn name_view(&self) -> Seq<char> {
        (**self)@
    }

    fn field_name(&self) -> (s: &str) {
        self.name
    }
}

// ── Universal operations (fields of a value type) ──────────────────

impl<T: IntoODataValue> Field<T> {
    /// Equality: `field eq value`
    pub fn eq<V: IntoODataValue>(self, value: V) -> (f: FieldFilter)
        ensures
            exists|v: ODataValue|
                call_ensures(V::into_odata_value, (value,), v) && compare_filter(
                    self@,
                    CompareOp::Eq,
                    v,
                    f,
                ),
    {
        let v = value.into_odata_value();
        let ghost gv = v;
        let f = compare_on(self.name, CompareOp::Eq, v);
        assert(call_ensures(V::into_odata_value, (value,), gv) && compare_filter(
            self@,
            CompareOp::Eq,
            gv,
            f,
        ));
        f
    }

    /// Inequality: `field ne value`
    pub fn ne<V: IntoODataValue>(self, value: V) -> (f: FieldFilter)
        ensures
            exists|v: ODataValue|
                call_ensures(V::into_odata_value, (value,), v) && compare_filter(
                    self@,
                    CompareOp::Ne,
                    v,
                    f,
                ),
    {
        let v = value.into_odata_value();
        let ghost gv = v;
        let f = compare_on(self.name, CompareOp::Ne, v);
        assert(call_ensures(V::into_odata_value, (value,), gv) && compare_filter(
            self@,
            CompareOp::Ne,
            gv,
            f,
        ));
        f
    }
}

// ── Ordering operations (numeric + string) ─────────────────────────

impl<T: IntoODataValue + ODataOrd> Field<T> {
    /// Greater than: `field gt value`
    pub fn gt<V: IntoODataValue>(self, value: V) -> (f: FieldFilter)
        ensures
            exists|v: ODataValue|
                call_ensures(V::into_odata_value, (value,), v) && compare_filter(
                    self@,
                    CompareOp::Gt,
                    v,
                    f,
                ),
    {
        let v = value.into_odata_value();
        let ghost gv = v;
        let f = compare_on(self.name, CompareOp::Gt, v);
        assert(call_ensures(V::into_odata_value, (value,), gv) && compare_filter(
            self@,
            CompareOp::Gt,
            gv,
            f,
        ));
        f
    }

    /// Greater or equal: `field ge value`
    pub fn ge<V: IntoODataValue>(self, value: V) -> (f: FieldFilter)
        ensures
            exists|v: ODataValue|
                call_ensures(V::into_odata_value, (value,), v) && compare_filter(
                    self@,
                    CompareOp::Ge,
                    v,
                    f,
                ),
    {
        let v = value.into_odata_value();
        let ghost gv = v;
        let f = compare_on(self.name, CompareOp::Ge, v);
        assert(call_ensures(V::into_odata_value, (value,), gv) && compare_filter(
            self@,
            CompareOp::Ge,
            gv,
            f,
        ));
        f
    }

    /// Less than: `field lt value`
    pub fn lt<V: IntoODataValue>(self, value: V) -> (f: FieldFilter)
        ensures
            exists|v: ODataValue|
                call_ensures(V::into_odata_value, (value,), v) && compare_filter(
                    self@,
                    CompareOp::Lt,
                    v,
                    f,
                ),
    {
        let v = value.into_odata_value();
        let ghost gv = v;
        let f = compare_on(self.name, CompareOp::Lt, v);
        assert(call_ensures(V::into_odata_value, (value,), gv) && compare_filter(
            self@,
            CompareOp::Lt,
            gv,
            f,
        ));
        f
    }

    /// Less or equal: `field le value`
    pub fn le<V: IntoODataValue>(self, value: V) -> (f: FieldFilter)
        ensures
            exists|v: ODataValue|
                call_ensures(V::into_odata_value, (value,), v) && compare_filter(
                    self@,
                    CompareOp::Le,
                    v,
                    f,
                ),
    {
        let v = value.into_odata_value();
        let ghost gv = v;
        let f = compare_on(self.name, CompareOp::Le, v);
        assert(call_ensures(V::into_odata_value, (value,), gv) && compare_filter(
            self@,
            CompareOp::Le,
            gv,
            f,
        ));
        f
    }
}

// ── String-only operations ─────────────────────────────────────────

impl<T: ODataStringLike> Field<T> {
    /// `contains(field, 'value')`
    pub fn contains(self, value: &str) -> (f: FieldFilter)
        ensures
            string_filter(self@, StringFunction::Contains, value@, f),
    {
        string_func_on(self.name, StringFunction::Contains, value)
    }

    /// `startswith(field, 'value')`
    pub fn starts_with(self, value: &str) -> (f: FieldFilter)
        ensures
            string_filter(self@, StringFunction::StartsWith, value@, f),
    {
        string_func_on(self.name, StringFunction::StartsWith, value)
    }

    /// `endswith(field, 'value')`
    pub fn ends_with(self, value: &str) -> (f: FieldFilter)
        ensures
            string_filter(self@, StringFunction::EndsWith, value@, f),
    {
        string_func_on(self.name, StringFunction::EndsWith, value)
    }
}

// ── FieldFilter wrapper ────────────────────────────────────────────

/// Wrapper returned by field methods. Implements `ODataFilter` so it
/// composes with `.and()` / `.or()` / `.not()` via `FilterCompose`.
#[derive(Debug)]
pub struct FieldFilter(pub FilterExpr);

impl Clone for FieldFilter {
    fn clone(&self) -> (f: Self)
        ensures
            same_filter(f.0, self.0),
    {
        FieldFilter(self.0.clone())
    }
}

impl ODataFilter for FieldFilter {
    fn into_filter_expr(self) -> (e: FilterExpr)
        ensures
            e == self.0,
    {
        self.0
    }
}

// ── Untyped field helper ───────────────────────────────────────────

/// Creates an untyped field for quick prototyping or fully dynamic queries.
/// All comparison methods are available regardless of type.
pub fn col(name: &'static str) -> (f: UntypedField)
    ensures
        f@ == name@,
{
    UntypedField(name)
}

/// An untyped field — all operations are available but not type-checked.
#[derive(Debug, Clone, Copy)]
pub struct UntypedField(&'static str);

impl View for UntypedField {
    type V = Seq<char>;

    /// The field's name.
    closed spec fn view(&self) -> Seq<char> {
        self.0@
    }
}

impl FieldRef for UntypedField {
    open spec fn name_view(&self) -> Seq<char> {
        self@
    }

    fn field_name(&self) -> (s: &str) {
        self.0
    }
}

impl UntypedField {
    /// A comparison `field op value` with a pre-built `ODataValue`.
    pub fn compare(self, op: CompareOp, value: ODataValue) -> (f: FieldFilter)
        ensures
            compare_filter(self@, op, value, f),
    {
        compare_on(self.0, op, value)
    }

    /// Equality: `field eq value`
    pub fn eq<V: IntoODataValue>(self, value: V) -> (f: FieldFilter)
        ensures
            exists|v: ODataValue|
                call_ensures(V::into_odata_value, (value,), v) && compare_filter(
                    self@,
                    CompareOp::Eq,
                    v,
                    f,
                ),
    {
        let v = value.into_odata_value();
        let ghost gv = v;
        let f = compare_on(self.0, CompareOp::Eq, v);
        assert(call_ensures(V::into_odata_value, (value,), gv) && compare_filter(
            self@,
            CompareOp::Eq,
            gv,
            f,
        ));
        f
    }

    /// Inequality: `field ne value`
    pub fn ne<V: IntoODataValue>(self, value: V) -> (f: FieldFilter)
        ensures
            exists|v: ODataValue|
                call_ensures(V::into_odata_value, (value,), v) && compare_filter(
                    self@,
                    CompareOp::Ne,
                    v,
                    f,
                ),
    {
        let v = value.into_odata_value();
        let ghost gv = v;
        let f = compare_on(self.0, CompareOp::Ne, v);
        assert(call_ensures(V::into_odata_value, (value,), gv) && compare_filter(
            self@,
            CompareOp::Ne,
            gv,
            f,
        ));
        f
    }

    /// Greater than: `field gt value`
    pub fn gt<V: IntoODataValue>(self, value: V) -> (f: FieldFilter)
        ensures
            exists|v: ODataValue|
                call_ensures(V::into_odata_value, (value,), v) && compare_filter(
                    self@,
                    CompareOp::Gt,
                    v,
                    f,
                ),
    {
        let v = value.into_odata_value();
        let ghost gv = v;
        let f = compare_on(self.0, CompareOp::Gt, v);
        assert(call_ensures(V::into_odata_value, (value,), gv) && compare_filter(
            self@,
            CompareOp::Gt,
            gv,
            f,
        ));
        f
    }

    /// Greater or equal: `field ge value`
    pub fn ge<V: IntoODataValue>(self, value: V) -> (f: FieldFilter)
        ensures
            exists|v: ODataValue|
                call_ensures(V::into_odata_value, (value,), v) && compare_filter(
                    self@,
                    CompareOp::Ge,
                    v,
                    f,
                ),
    {
        let v = value.into_odata_value();
        let ghost gv = v;
        let f = compare_on(self.0, CompareOp::Ge, v);
        assert(call_ensures(V::into_odata_value, (value,), gv) && compare_filter(
            self@,
            CompareOp::Ge,
            gv,
            f,
        ));
        f
    }

    /// Less than: `field lt value`
    pub fn lt<V: IntoODataValue>(self, value: V) -> (f: FieldFilter)
        ensures
            exists|v: ODataValue|
                call_ensures(V::into_odata_value, (value,), v) && compare_filter(
                    self@,
                    CompareOp::Lt,
                    v,
                    f,
                ),
    {
        let v = value.into_odata_value();
        let ghost gv = v;
        let f = compare_on(self.0, CompareOp::Lt, v);
        assert(call_ensures(V::into_odata_value, (value,), gv) && compare_filter(
            self@,
            CompareOp::Lt,
            gv,
            f,
        ));
        f
    }

    /// Less or equal: `field le value`
    pub fn le<V: IntoODataValue>(self, value: V) -> (f: FieldFilter)
        ensures
            exists|v: ODataValue|
                call_ensures(V::into_odata_value, (value,), v) && compare_filter(
                    self@,
                    CompareOp::Le,
                    v,
                    f,
                ),
    {
        let v = value.into_odata_value();
        let ghost gv = v;
        let f = compare_on(self.0, CompareOp::Le, v);
        assert(call_ensures(V::into_odata_value, (value,), gv) && compare_filter(
            self@,
            CompareOp::Le,
            gv,
            f,
        ));
        f
    }

    /// `contains(field, 'value')`
    pub fn contains(self, value: &str) -> (f: FieldFilter)
        ensures
            string_filter(self@, StringFunction::Contains, value@, f),
    {
        string_func_on(self.0, StringFunction::Contains, value)
    }

    /// `startswith(field, 'value')`
    pub fn starts_with(self, value: &str) -> (f: FieldFilter)
        ensures
            string_filter(self@, StringFunction::StartsWith, value@, f),
    {
        string_func_on(self.0, StringFunction::StartsWith, value)
    }

    /// `endswith(field, 'value')`
    pub fn ends_with(self, value: &str) -> (f: FieldFilter)
        ensures
            string_filter(self@, StringFunction::EndsWith, value@, f),
    {
        string_func_on(self.0, StringFunction::EndsWith, value)
    }

    /// Null check: `field eq null`
    pub fn is_null(self) -> (f: FieldFilter)
        ensures
            f.0 matches FilterExpr::IsNull { field } && field@ == self@,
    {
        is_null_on(self.0)
    }

    /// Not-null check: `field ne null`
    pub fn is_not_null(self) -> (f: FieldFilter)
        ensures
            f.0 matches FilterExpr::IsNotNull { field } && field@ == self@,
    {
        is_not_null_on(self.0)
    }

    /// `field in (v1, v2, v3)`
    pub fn in_list(self, values: Vec<ODataValue>) -> (f: FieldFilter)
        ensures
            f.0 matches FilterExpr::In { field, values: vs } && field@ == self@ && vs == values,
    {
        in_list_on(self.0, values)
    }
}

} // verus!
