//! The `$filter` expression tree, its serialisation and its composition.

use vstd::prelude::*;

use crate::text::{escape_quotes, join, push_escaped};
use crate::value::{value_text, ODataValue};

verus! {

// ── Expression tree ────────────────────────────────────────────────

/// Comparison operators.
#[derive(Debug, Clone, Copy, PartialEq)]
pub enum CompareOp {
    Eq,
    Ne,
    Gt,
    Ge,
    Lt,
    Le,
}

/// The keyword of a comparison operator.
pub open spec fn compare_op_text(op: CompareOp) -> Seq<char> {
    match op {
        CompareOp::Eq => "eq"@,
        CompareOp::Ne => "ne"@,
        CompareOp::Gt => "gt"@,
        CompareOp::Ge => "ge"@,
        CompareOp::Lt => "lt"@,
        CompareOp::Le => "le"@,
    }
}

impl CompareOp {
    /// The operator's OData keyword.
    pub fn as_str(&self) -> (s: &'static str)
        ensures
            s@ == compare_op_text(*self),
    {
        match self {
            CompareOp::Eq => "eq",
            CompareOp::Ne => "ne",
            CompareOp::Gt => "gt",
            CompareOp::Ge => "ge",
            CompareOp::Lt => "lt",
            CompareOp::Le => "le",
        }
    }
}

/// Logical operators.
#[derive(Debug, Clone, Copy, PartialEq)]
pub enum LogicalOp {
    And,
    Or,
}

/// The keyword of a logical operator.
pub open spec fn logical_op_text(op: LogicalOp) -> Seq<char> {
    match op {
        LogicalOp::And => "and"@,
        LogicalOp::Or => "or"@,
    }
}

impl LogicalOp {
    /// The operator's OData keyword.
    pub fn as_str(&self) -> (s: &'static str)
        ensures
            s@ == logical_op_text(*self),
    {
        match self {
            LogicalOp::And => "and",
            LogicalOp::Or => "or",
        }
    }
}

/// A string function call (contains, startswith, endswith).
#[derive(Debug, Clone, Copy, PartialEq)]
pub enum StringFunction {
    Contains,
    StartsWith,
    EndsWith,
}

/// The name of a string function.
pub open spec fn string_function_text(f: StringFunction) -> Seq<char> {
    match f {
        StringFunction::Contains => "contains"@,
        StringFunction::StartsWith => "startswith"@,
        StringFunction::EndsWith => "endswith"@,
    }
}

impl StringFunction {
    /// The function's OData name.
    pub fn as_str(&self) -> (s: &'static str)
        ensures
            s@ == string_function_text(*self),
    {
        match self {
            StringFunction::Contains => "contains",
            StringFunction::StartsWith => "startswith",
            StringFunction::EndsWith => "endswith",
        }
    }
}

/// The core expression tree for OData `$filter`.
///
/// Serialisation is deferred until `to_filter_string` is called, allowing
/// programmatic inspection, transformation, and composition.
#[derive(Debug, PartialEq)]
pub enum FilterExpr {
    /// Field comparison: `price gt 100`
    Compare { field: String, op: CompareOp, value: ODataValue },
    /// Logical combination: `(left) and (right)`
    Logical { left: Box<FilterExpr>, op: LogicalOp, right: Box<FilterExpr> },
    /// Negation: `not (expr)`
    Not(Box<FilterExpr>),
    /// Null check: `field eq null`
    IsNull { field: String },
    /// Not-null check: `field ne null`
    IsNotNull { field: String },
    /// String function: `contains(name, 'bike')`
    StringFunc { func: StringFunction, field: String, value: String },
    /// `field in ('a', 'b', 'c')`
    In { field: String, values: Vec<ODataValue> },
    /// Raw OData expression — the escape hatch.
    Raw(String),
}

/// The literals of a list of values.
pub open spec fn value_texts(values: Seq<ODataValue>) -> Seq<Seq<char>> {
    values.map_values(|v: ODataValue| value_text(v))
}

/// The `$filter` text of an expression.
pub open spec fn filter_text(e: FilterExpr) -> Seq<char>
    decreases e,
{
    match e {
        FilterExpr::Compare { field, op, value } => field@ + " "@ + compare_op_text(op) + " "@
            + value_text(value),
        FilterExpr::Logical { left, op, right } => "("@ + filter_text(*left) + ") "@
            + logical_op_text(op) + " ("@ + filter_text(*right) + ")"@,
        FilterExpr::Not(inner) => "not ("@ + filter_text(*inner) + ")"@,
        FilterExpr::IsNull { field } => field@ + " eq null"@,
        FilterExpr::IsNotNull { field } => field@ + " ne null"@,
        FilterExpr::StringFunc { func, field, value } => string_function_text(func) + "("@
            + field@ + ", '"@ + escape_quotes(value@) + "')"@,
        FilterExpr::In { field, values } => field@ + " in ("@ + join(
            value_texts(values@),
            ", "@,
        ) + ")"@,
        FilterExpr::Raw(s) => s@,
    }
}

/// Appends the literals of `values`, separated by `, `.
fn push_value_list(out: &mut String, values: &Vec<ODataValue>)
    ensures
        final(out)@ == old(out)@ + join(value_texts(values@), ", "@),
{
    let ghost start = out@;
    let ghost all = value_texts(values@);
    let mut i: usize = 0;
    while i < values.len()
        invariant
            0 <= i <= values.len(),
            all == value_texts(values@),
            all.len() == values@.len(),
            out@ == start + join(all.take(i as int), ", "@),
        decreases values.len() - i,
    {
        assert(all.take(i + 1).drop_last() =~= all.take(i as int));
        if i > 0 {
            out.append(", ");
        }
        values[i].push_odata(out);
        assert(all[i as int] == value_text(values@[i as int]));
        i = i + 1;
        assert(out@ =~= start + join(all.take(i as int), ", "@));
    }
    assert(all.take(i as int) =~= all);
}

impl FilterExpr {
    /// Appends the `$filter` text of this expression.
    pub(crate) fn push_filter(&self, out: &mut String)
        ensures
            final(out)@ == old(out)@ + filter_text(*self),
        decreases self,
    {
        match self {
            FilterExpr::Compare { field, op, value } => {
                out.append(field.as_str());
                out.append(" ");
                out.append(op.as_str());
                out.append(" ");
                value.push_odata(out);
            },
            FilterExpr::Logical { left, op, right } => {
                out.append("(");
                left.push_filter(out);
                out.append(") ");
                out.append(op.as_str());
                out.append(" (");
                right.push_filter(out);
                out.append(")");
            },
            FilterExpr::Not(inner) => {
                out.append("not (");
                inner.push_filter(out);
                out.append(")");
            },
            FilterExpr::IsNull { field } => {
                out.append(field.as_str());
                out.append(" eq null");
            },
            FilterExpr::IsNotNull { field } => {
                out.append(field.as_str());
                out.append(" ne null");
            },
            FilterExpr::StringFunc { func, field, value } => {
                out.append(func.as_str());
                out.append("(");
                out.append(field.as_str());
                out.append(", '");
                push_escaped(out, value.as_str());
                out.append("')");
            },
            FilterExpr::In { field, values } => {
                out.append(field.as_str());
                out.append(" in (");
                push_value_list(out, values);
                out.append(")");
            },
            FilterExpr::Raw(s) => {
                out.append(s.as_str());
            },
        }
        assert(final(out)@ =~= old(out)@ + filter_text(*self));
    }

    /// Serializes this expression to an OData `$filter` string.
    pub fn to_filter_string(&self) -> (s: String)
        ensures
            s@ == filter_text(*self),
    {
        let mut s = String::new();
        self.push_filter(&mut s);
        assert(s@ =~= filter_text(*self));
        s
    }
}


/// Copies a list of values.
pub(crate) fn clone_values(values: &Vec<ODataValue>) -> (res: Vec<ODataValue>)
    ensures
        res@ == values@,
{
    let mut res: Vec<ODataValue> = Vec::new();
    let mut i: usize = 0;
    while i < values.len()
        invariant
            i <= values.len(),
            res@ == values@.take(i as int),
        decreases values.len() - i,
    {
        res.push(values[i].clone());
        i = i + 1;
        assert(res@ =~= values@.take(i as int));
    }
    assert(values@.take(i as int) =~= values@);
    res
}

/// Two expressions are the same tree: equal node by node, with lists of
/// values compared by their contents.
pub open spec fn same_filter(a: FilterExpr, b: FilterExpr) -> bool
    decreases a,
{
    match a {
        FilterExpr::Logical { left, op, right } => match b {
            FilterExpr::Logical { left: left2, op: op2, right: right2 } => op == op2 && same_filter(
                *left,
                *left2,
            ) && same_filter(*right, *right2),
            _ => false,
        },
        FilterExpr::Not(inner) => match b {
            FilterExpr::Not(inner2) => same_filter(*inner, *inner2),
            _ => false,
        },
        FilterExpr::In { field, values } => match b {
            FilterExpr::In { field: field2, values: values2 } => field == field2 && values@
                == values2@,
            _ => false,
        },
        _ => a == b,
    }
}

impl Clone for FilterExpr {
    fn clone(&self) -> (res: Self)
        ensures
            same_filter(res, *self),
        decreases self,
    {
        match self {
            FilterExpr::Compare { field, op, value } => FilterExpr::Compare {
                field: field.clone(),
                op: *op,
                value: value.clone(),
            },
            FilterExpr::Logical { left, op, right } => FilterExpr::Logical {
                left: Box::new((&**left).clone()),
                op: *op,
                right: Box::new((&**right).clone()),
            },
            FilterExpr::Not(inner) => FilterExpr::Not(Box::new((&**inner).clone())),
            FilterExpr::IsNull { field } => FilterExpr::IsNull { field: field.clone() },
            FilterExpr::IsNotNull { field } => FilterExpr::IsNotNull { field: field.clone() },
            FilterExpr::StringFunc { func, field, value } => FilterExpr::StringFunc {
                func: *func,
                field: field.clone(),
                value: value.clone(),
            },
            FilterExpr::In { field, values } => FilterExpr::In {
                field: field.clone(),
                values: clone_values(values),
            },
            FilterExpr::Raw(s) => FilterExpr::Raw(s.clone()),
        }
    }
}


impl FilterExpr {
    /// The expression written as text, the same as `to_filter_string`.
    pub fn to_string(&self) -> (s: String)
        ensures
            s@ == filter_text(*self),
    {
        self.to_filter_string()
    }

    /// Joins two expressions with a logical operator: `(left) op (right)`.
    pub fn combine(left: FilterExpr, op: LogicalOp, right: FilterExpr) -> (e: FilterExpr)
        ensures
            e == (FilterExpr::Logical { left: Box::new(left), op, right: Box::new(right) }),
    {
        FilterExpr::Logical { left: Box::new(left), op, right: Box::new(right) }
    }
}

// ── ODataFilter trait ──────────────────────────────────────────────

/// The core filter trait. Implement this on any type to make it usable
/// with the query builder and composable with other filters.
pub trait ODataFilter {
    /// Converts this filter into an expression tree node.
    fn into_filter_expr(self) -> FilterExpr;
}

// FilterExpr is trivially a filter.
impl ODataFilter for FilterExpr {
    fn into_filter_expr(self) -> (e: FilterExpr)
        ensures
            e == self,
    {
        self
    }
}

// ── Composition ────────────────────────────────────────────────────

/// Extension trait providing `.and()`, `.or()` and `.not()` on any
/// `ODataFilter`.
///
/// Each combinator converts its operands with their `into_filter_expr` and
/// wraps the results, in order, in one new node; what a conversion gives is
/// whatever that implementation's contract allows (`call_ensures`).
pub trait FilterCompose: ODataFilter + Sized {
    /// Combines with another filter using AND.
    fn and<F: ODataFilter>(self, other: F) -> (e: FilterExpr)
        ensures
            exists|left: FilterExpr, right: FilterExpr|
                {
                    &&& call_ensures(Self::into_filter_expr, (self,), left)
                    &&& call_ensures(F::into_filter_expr, (other,), right)
                    &&& e == (FilterExpr::Logical {
                        left: Box::new(left),
                        op: LogicalOp::And,
                        right: Box::new(right),
                    })
                },
    {
        let left = self.into_filter_expr();
        let right = other.into_filter_expr();
        FilterExpr::combine(left, LogicalOp::And, right)
    }

    /// Combines with another filter using OR.
    fn or<F: ODataFilter>(self, other: F) -> (e: FilterExpr)
        ensures
            exists|left: FilterExpr, right: FilterExpr|
                {
                    &&& call_ensures(Self::into_filter_expr, (self,), left)
                    &&& call_ensures(F::into_filter_expr, (other,), right)
                    &&& e == (FilterExpr::Logical {
                        left: Box::new(left),
                        op: LogicalOp::Or,
                        right: Box::new(right),
                    })
                },
    {
        let left = self.into_filter_expr();
        let right = other.into_filter_expr();
        FilterExpr::combine(left, LogicalOp::Or, right)
    }

    /// Negates this filter.
    fn not(self) -> (e: FilterExpr)
        ensures
            exists|inner: FilterExpr|
                {
                    &&& call_ensures(Self::into_filter_expr, (self,), inner)
                    &&& e == FilterExpr::Not(Box::new(inner))
                },
    {
        FilterExpr::Not(Box::new(self.into_filter_expr()))
    }
}

// Blanket implementation.
impl<T: ODataFilter> FilterCompose for T {

}

// ── Raw filter (escape hatch) ──────────────────────────────────────

/// A raw OData filter string. Use this when the typed DSL doesn't cover a
/// specific API quirk.
pub struct RawFilter(String);

impl View for RawFilter {
    type V = Seq<char>;

    closed spec fn view(&self) -> Seq<char> {
        self.0@
    }
}

impl RawFilter {
    /// Wraps a raw filter text.
    pub fn new(s: &str) -> (f: RawFilter)
        ensures
            f@ == s@,
    {
        RawFilter(s.to_owned())
    }
}

impl ODataFilter for RawFilter {
    fn into_filter_expr(self) -> (e: FilterExpr)
        ensures
            e matches FilterExpr::Raw(s) && s@ == self@,
    {
        FilterExpr::Raw(self.0)
    }
}

} // verus!
