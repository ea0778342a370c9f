//! Properties of the library as a whole, proved over the specifications
//! that the serialisers' contracts use.

use vstd::prelude::*;

use crate::builder::{
    custom_text, custom_texts, empty_model, query_parts, query_text, url_text, QueryModel,
};
use crate::expand::{
    and_filter, expand_list_text, expand_options, expand_text, option_if, order_option, order_text,
    order_texts, select_option, ExpandClause, Order, OrderByClause,
};
use crate::filter::{
    filter_text, string_function_text, value_texts, CompareOp, FilterExpr, LogicalOp,
    StringFunction,
};
use crate::text::{decimal, digit_char, escape_char, escape_quotes, int_text, join};
use crate::value::{datetime_text, float_text, non_finite, value_text, ODataValue};

verus! {

// ── Integer literals ───────────────────────────────────────────────

/// The number a decimal digit character stands for.
pub open spec fn digit_value(c: char) -> int {
    c as int - 48
}

/// Whether `c` is one of `0`..`9`.
pub open spec fn is_digit(c: char) -> bool {
    '0' <= c <= '9'
}

/// The number that a sequence of decimal digits denotes.
pub open spec fn digits_value(s: Seq<char>) -> int
    decreases s.len(),
{
    if s.len() == 0 {
        0
    } else {
        digits_value(s.drop_last()) * 10 + digit_value(s.last())
    }
}

/// The decimal text of a number is a non-empty run of digits, with no
/// leading zero, that denotes the number.
pub proof fn lemma_decimal_reads_back(n: nat)
    ensures
        decimal(n).len() > 0,
        forall|i: int| 0 <= i < decimal(n).len() ==> is_digit(#[trigger] decimal(n)[i]),
        (decimal(n).len() == 1) == (n < 10),
        decimal(n).len() > 1 ==> decimal(n)[0] != '0',
        digits_value(decimal(n)) == n,
    decreases n,
{
    if n < 10 {
        let d = decimal(n);
        assert(d.drop_last() =~= seq![]);
        assert(digits_value(d.drop_last()) == 0);
        assert(d.last() == digit_char(n));
        assert(digit_char(n) as int == n + 48);
    } else {
        let m = n / 10;
        let r = n % 10;
        lemma_decimal_reads_back(m);
        let d = decimal(n);
        assert(d == decimal(m).push(digit_char(r)));
        assert(d.drop_last() =~= decimal(m));
        assert(d.last() == digit_char(r));
        assert(digit_char(r) as int == r + 48);
        assert(digits_value(d) == digits_value(decimal(m)) * 10 + r);
        assert(m * 10 + r == n);
        assert(d[0] == decimal(m)[0]);
        if decimal(m).len() == 1 {
            assert(decimal(m)[0] == digit_char(m));
        }
    }
}

/// The literal of an integer is its decimal text, after a `-` when the
/// integer is negative, and it denotes the integer.
pub proof fn lemma_int_literal_reads_back(n: i64)
    ensures
        value_text(ODataValue::Int(n)) == int_text(n as int),
        n >= 0 ==> digits_value(int_text(n as int)) == n,
        n < 0 ==> int_text(n as int)[0] == '-' && digits_value(int_text(n as int).drop_first())
            == -n,
{
    if n >= 0 {
        lemma_decimal_reads_back(n as nat);
    } else {
        lemma_decimal_reads_back((-n) as nat);
        assert(int_text(n as int).drop_first() =~= decimal((-n) as nat));
    }
}

// ── String literals ────────────────────────────────────────────────

/// Reads the text between the quotes of a string literal back: each
/// doubled quote stands for one quote.
pub open spec fn unescape_quotes(t: Seq<char>) -> Seq<char>
    decreases t.len(),
{
    if t.len() == 0 {
        seq![]
    } else if t.len() >= 2 && t.last() == '\'' && t[t.len() - 2] == '\'' {
        unescape_quotes(t.take(t.len() - 2)).push('\'')
    } else {
        unescape_quotes(t.drop_last()).push(t.last())
    }
}

/// Doubling the quotes of a string loses nothing: reading back gives the
/// string again.
pub proof fn lemma_escape_reads_back(s: Seq<char>)
    ensures
        unescape_quotes(escape_quotes(s)) == s,
    decreases s.len(),
{
    if s.len() == 0 {
        assert(escape_quotes(s) =~= seq![]);
    } else {
        let rest = s.drop_last();
        let c = s.last();
        lemma_escape_reads_back(rest);
        let t = escape_quotes(s);
        assert(t == escape_quotes(rest) + escape_char(c));
        if c == '\'' {
            assert(t.take(t.len() - 2) =~= escape_quotes(rest));
        } else {
            assert(t.drop_last() =~= escape_quotes(rest));
        }
        assert(s =~= rest.push(c));
    }
}

/// A string value's literal is quoted, and the text between the quotes
/// reads back as the string.
pub proof fn lemma_string_literal_reads_back(s: String)
    ensures
        ({
            let t = value_text(ODataValue::String(s));
            &&& t.len() >= 2
            &&& t[0] == '\''
            &&& t.last() == '\''
            &&& unescape_quotes(t.subrange(1, t.len() - 1)) == s@
        }),
{
    let t = value_text(ODataValue::String(s));
    assert(t.subrange(1, t.len() - 1) =~= escape_quotes(s@));
    lemma_escape_reads_back(s@);
}

// ── Datetime and float literals ────────────────────────────────────

/// A datetime literal ends in `Z` or `z`, and making one again from it
/// changes nothing.
pub proof fn lemma_datetime_idempotent(s: Seq<char>)
    ensures
        datetime_text(s).len() > 0,
        datetime_text(s).last() == 'Z' || datetime_text(s).last() == 'z',
        datetime_text(datetime_text(s)) == datetime_text(s),
{
}

/// The literal of a finite float always has a decimal point; the values
/// that are not finite are written `NaN`, `INF` and `-INF`.
pub proof fn lemma_float_literal_has_point(d: crate::value::Decimal)
    ensures
        !non_finite(d.0@) ==> value_text(ODataValue::Float(d)).contains('.'),
        d.0@ == "NaN"@ ==> value_text(ODataValue::Float(d)) == "NaN"@,
        d.0@ == "inf"@ ==> value_text(ODataValue::Float(d)) == "INF"@,
        d.0@ == "-inf"@ ==> value_text(ODataValue::Float(d)) == "-INF"@,
{
    reveal_strlit("NaN");
    reveal_strlit("inf");
    reveal_strlit("-inf");
    assert("NaN"@[0] != "inf"@[0]);
    assert("NaN"@.len() != "-inf"@.len());
    assert("inf"@.len() != "-inf"@.len());
    let t = d.0@;
    if !non_finite(t) && !t.contains('.') {
        let r = float_text(t);
        assert(r[t.len() as int] == '.');
    }
}

// ── Filters ────────────────────────────────────────────────────────

/// Adding two filters to a query with none ANDs them: the first on the
/// left, the second on the right.
pub proof fn lemma_filters_are_anded(q: QueryModel, a: FilterExpr, b: FilterExpr)
    requires
        q.filter is None,
    ensures
        and_filter(and_filter(q.filter, a), b) matches Some(e) && filter_text(e) == "("@
            + filter_text(a) + ") and ("@ + filter_text(b) + ")"@,
{
    reveal_strlit("(");
    reveal_strlit(") ");
    reveal_strlit("and");
    reveal_strlit(" (");
    reveal_strlit(") and (");
    reveal_strlit(")");
    let e = and_filter(and_filter(q.filter, a), b)->0;
    assert(filter_text(e) =~= "("@ + filter_text(a) + ") and ("@ + filter_text(b) + ")"@);
}

// ── Query strings and URLs ─────────────────────────────────────────

/// Whether no query option of `q` is set.
pub open spec fn no_options(q: QueryModel) -> bool {
    &&& q.filter is None
    &&& q.select.len() == 0
    &&& q.order_by.len() == 0
    &&& q.expand.len() == 0
    &&& q.top is None
    &&& q.skip is None
    &&& q.count is None
    &&& q.search is None
    &&& q.format is None
    &&& q.custom.len() == 0
}

/// Whether every item of `items` is non-empty.
pub open spec fn all_nonempty(items: Seq<Seq<char>>) -> bool {
    forall|i: int| 0 <= i < items.len() ==> #[trigger] items[i].len() > 0
}

proof fn lemma_join_empty(items: Seq<Seq<char>>, sep: Seq<char>)
    requires
        all_nonempty(items),
    ensures
        (join(items, sep).len() == 0) == (items.len() == 0),
    decreases items.len(),
{
    if items.len() > 1 {
        assert(items.last() == items[items.len() - 1]);
    } else if items.len() == 1 {
        assert(items[0].len() > 0);
    }
}

proof fn lemma_all_nonempty_add(a: Seq<Seq<char>>, b: Seq<Seq<char>>)
    requires
        all_nonempty(a),
        all_nonempty(b),
    ensures
        all_nonempty(a + b),
{
    assert forall|i: int| 0 <= i < (a + b).len() implies #[trigger] (a + b)[i].len() > 0 by {
        if i < a.len() {
            assert((a + b)[i] == a[i]);
        } else {
            assert((a + b)[i] == b[i - a.len()]);
        }
    }
}

proof fn lemma_option_nonempty(present: bool, prefix: Seq<char>, body: Seq<char>)
    requires
        prefix.len() > 0,
    ensures
        all_nonempty(option_if(present, prefix + body)),
{
}

/// The query string is empty exactly when no query option is set; the URL
/// then has no `?`.
pub proof fn lemma_query_text_empty(q: QueryModel)
    ensures
        (query_text(q).len() == 0) == no_options(q),
{
    lemma_all_parts_nonempty(q);
    lemma_join_empty(query_parts(q), "&"@);
}

/// Every parameter of a query string is non-empty.
proof fn lemma_all_parts_nonempty(q: QueryModel)
    ensures
        all_nonempty(query_parts(q)),
        (query_parts(q).len() == 0) == no_options(q),
{
    reveal_strlit("$filter=");
    reveal_strlit("$select=");
    reveal_strlit("$orderby=");
    reveal_strlit("$expand=");
    reveal_strlit("$top=");
    reveal_strlit("$skip=");
    reveal_strlit("$count=");
    reveal_strlit("$search=");
    reveal_strlit("$format=");
    reveal_strlit("=");
    let p1 = option_if(q.filter is Some, "$filter="@ + filter_text(q.filter->0));
    let p2 = option_if(q.select.len() > 0, crate::expand::select_option(q.select));
    let p3 = option_if(q.order_by.len() > 0, crate::expand::order_option(q.order_by));
    let p4 = option_if(
        q.expand.len() > 0,
        "$expand="@ + crate::expand::expand_list_text(q.expand),
    );
    let p5 = option_if(q.top is Some, "$top="@ + decimal(q.top->0 as nat));
    let p6 = option_if(q.skip is Some, "$skip="@ + decimal(q.skip->0 as nat));
    let p7 = option_if(q.count is Some, "$count="@ + crate::value::bool_text(q.count->0));
    let p8 = option_if(q.search is Some, "$search="@ + q.search->0);
    let p9 = option_if(q.format is Some, "$format="@ + q.format->0);
    let pc = custom_texts(q.custom);
    lemma_option_nonempty(q.filter is Some, "$filter="@, filter_text(q.filter->0));
    lemma_option_nonempty(
        q.select.len() > 0,
        "$select="@,
        join(q.select, ","@),
    );
    lemma_option_nonempty(
        q.order_by.len() > 0,
        "$orderby="@,
        join(crate::expand::order_texts(q.order_by), ","@),
    );
    lemma_option_nonempty(
        q.expand.len() > 0,
        "$expand="@,
        crate::expand::expand_list_text(q.expand),
    );
    lemma_option_nonempty(q.top is Some, "$top="@, decimal(q.top->0 as nat));
    lemma_option_nonempty(q.skip is Some, "$skip="@, decimal(q.skip->0 as nat));
    lemma_option_nonempty(q.count is Some, "$count="@, crate::value::bool_text(q.count->0));
    lemma_option_nonempty(q.search is Some, "$search="@, q.search->0);
    lemma_option_nonempty(q.format is Some, "$format="@, q.format->0);
    assert forall|i: int| 0 <= i < pc.len() implies #[trigger] pc[i].len() > 0 by {
        assert(pc[i] == custom_text(q.custom[i]));
    }
    assert(p2 == option_if(q.select.len() > 0, "$select="@ + join(q.select, ","@)));
    assert(p3 == option_if(
        q.order_by.len() > 0,
        "$orderby="@ + join(crate::expand::order_texts(q.order_by), ","@),
    ));
    lemma_all_nonempty_add(p1, p2);
    lemma_all_nonempty_add(p1 + p2, p3);
    lemma_all_nonempty_add(p1 + p2 + p3, p4);
    lemma_all_nonempty_add(p1 + p2 + p3 + p4, p5);
    lemma_all_nonempty_add(p1 + p2 + p3 + p4 + p5, p6);
    lemma_all_nonempty_add(p1 + p2 + p3 + p4 + p5 + p6, p7);
    lemma_all_nonempty_add(p1 + p2 + p3 + p4 + p5 + p6 + p7, p8);
    lemma_all_nonempty_add(p1 + p2 + p3 + p4 + p5 + p6 + p7 + p8, p9);
    lemma_all_nonempty_add(p1 + p2 + p3 + p4 + p5 + p6 + p7 + p8 + p9, pc);
    assert(query_parts(q) == p1 + p2 + p3 + p4 + p5 + p6 + p7 + p8 + p9 + pc);
}

/// A base URL with one more trailing slash gives the same URL: trailing
/// slashes of the base are dropped.
pub proof fn lemma_base_url_trailing_slash(q: QueryModel, base: Seq<char>)
    ensures
        url_text(QueryModel { base_url: Some(base.push('/')), ..q }) == url_text(
            QueryModel { base_url: Some(base), ..q },
        ),
{
    assert(base.push('/').drop_last() =~= base);
}

/// Setting an option again replaces it: only the last value counts.
pub proof fn lemma_options_replace(q: QueryModel, a: usize, b: usize, s: Seq<Seq<char>>, t: Seq<Seq<char>>)
    ensures
        (QueryModel { top: Some(b), ..QueryModel { top: Some(a), ..q } }) == (QueryModel {
            top: Some(b),
            ..q
        }),
        (QueryModel { skip: Some(b), ..QueryModel { skip: Some(a), ..q } }) == (QueryModel {
            skip: Some(b),
            ..q
        }),
        (QueryModel { select: t, ..QueryModel { select: s, ..q } }) == (QueryModel {
            select: t,
            ..q
        }),
{
}

// ── Expand clauses ─────────────────────────────────────────────────

/// An expand clause with no options is just its navigation property.
pub proof fn lemma_expand_without_options(e: ExpandClause)
    requires
        e.select@.len() == 0,
        e.filter is None,
        e.order_by@.len() == 0,
        e.top is None,
        e.skip is None,
        e.nested_expand@.len() == 0,
    ensures
        expand_text(e) == e.navigation@,
{
    assert(expand_options(e) =~= seq![]);
}


// ── Lists joined with a separator ──────────────────────────────────

/// Joining two non-empty lists in one go is joining each and putting the
/// separator between them.
pub proof fn lemma_join_concat(a: Seq<Seq<char>>, b: Seq<Seq<char>>, sep: Seq<char>)
    requires
        a.len() > 0,
        b.len() > 0,
    ensures
        join(a + b, sep) == join(a, sep) + sep + join(b, sep),
    decreases b.len(),
{
    if b.len() == 1 {
        assert((a + b).drop_last() =~= a);
        assert((a + b).last() == b[0]);
    } else {
        lemma_join_concat(a, b.drop_last(), sep);
        assert((a + b).drop_last() =~= a + b.drop_last());
        assert((a + b).last() == b.last());
    }
}

// ── Float literals keep their text ─────────────────────────────────

/// The literal of a finite float starts with the float's own decimal text,
/// sign and all, and adds at most `.0`: exactly the text when it has a
/// point, the text and `.0` when it has none.
pub proof fn lemma_float_literal_keeps_text(d: crate::value::Decimal)
    requires
        !non_finite(d.0@),
    ensures
        ({
            let t = d.0@;
            let r = value_text(ODataValue::Float(d));
            &&& r.len() >= t.len()
            &&& r.subrange(0, t.len() as int) == t
            &&& t.contains('.') ==> r == t
            &&& !t.contains('.') ==> r == t + seq!['.', '0']
            &&& (t.len() > 0 && t[0] == '-') ==> r[0] == '-'
        }),
{
    let t = d.0@;
    let r = value_text(ODataValue::Float(d));
    if !t.contains('.') {
        assert(r.subrange(0, t.len() as int) =~= t);
    } else {
        assert(r.subrange(0, t.len() as int) =~= t);
    }
}

// ── In-lists ───────────────────────────────────────────────────────

/// `field in (...)` lists every value: an empty list gives `field in ()`,
/// one value gives `field in (v)`, and one more value at the end of a
/// non-empty list puts `, ` and its literal before the closing bracket.
pub proof fn lemma_in_list_text(
    field: String,
    values: Vec<ODataValue>,
    more: Vec<ODataValue>,
    v: ODataValue,
)
    ensures
        values@.len() == 0 ==> filter_text(FilterExpr::In { field, values }) == field@
            + " in ("@ + ")"@,
        values@ == seq![v] ==> filter_text(FilterExpr::In { field, values }) == field@
            + " in ("@ + value_text(v) + ")"@,
        values@.len() > 0 && more@ == values@.push(v) ==> filter_text(
            FilterExpr::In { field, values: more },
        ) == filter_text(FilterExpr::In { field, values }).drop_last() + ", "@ + value_text(v)
            + ")"@,
{
    reveal_strlit(")");
    if values@.len() == 0 {
        assert(value_texts(values@) =~= seq![]);
    }
    if values@ == seq![v] {
        assert(value_texts(values@) =~= seq![value_text(v)]);
    }
    if values@.len() > 0 && more@ == values@.push(v) {
        assert(value_texts(more@) =~= value_texts(values@) + seq![value_text(v)]);
        lemma_join_concat(value_texts(values@), seq![value_text(v)], ", "@);
        assert(join(seq![value_text(v)], ", "@) == value_text(v));
        let whole = filter_text(FilterExpr::In { field, values });
        assert(whole.drop_last() =~= field@ + " in ("@ + join(value_texts(values@), ", "@));
    }
}


// ── Nested expands ─────────────────────────────────────────────────

/// A list of expand clauses is each clause's text, in order, joined by
/// `,`: one clause is its own text, and one more clause after a non-empty
/// list adds `,` and its text at the end.
pub proof fn lemma_expand_list_text(items: Seq<ExpandClause>, c: ExpandClause)
    ensures
        expand_list_text(seq![c]) == expand_text(c),
        items.len() > 0 ==> expand_list_text(items.push(c)) == expand_list_text(items) + ","@
            + expand_text(c),
{
    assert(items.push(c).drop_last() =~= items);
}

/// The nested `$expand` option of a clause names every nested clause, in
/// order, exactly as a query's own `$expand` names its clauses: its last
/// option is `$expand=` and the joined list, the same text the query
/// writes for that list.
pub proof fn lemma_nested_expand_option(e: ExpandClause)
    requires
        e.nested_expand@.len() > 0,
    ensures
        expand_options(e).len() > 0,
        expand_options(e).last() == "$expand="@ + expand_list_text(e.nested_expand@),
        query_parts(QueryModel { expand: e.nested_expand@, ..empty_model() }) == seq![
            expand_options(e).last(),
        ],
{
    let q = QueryModel { expand: e.nested_expand@, ..empty_model() };
    assert(custom_texts(q.custom) =~= seq![]);
    assert(query_parts(q) =~= seq!["$expand="@ + expand_list_text(e.nested_expand@)]);
}

/// A clause with only nested clauses `a` and `b` writes both, in order:
/// `nav($expand=a,b)`.
pub proof fn lemma_two_nested_expands(e: ExpandClause, a: ExpandClause, b: ExpandClause)
    requires
        e.select@.len() == 0,
        e.filter is None,
        e.order_by@.len() == 0,
        e.top is None,
        e.skip is None,
        e.nested_expand@ == seq![a, b],
    ensures
        expand_text(e) == e.navigation@ + "($expand="@ + expand_text(a) + ","@ + expand_text(b)
            + ")"@,
{
    reveal_strlit("(");
    reveal_strlit("($expand=");
    reveal_strlit("$expand=");
    assert(seq![a, b].drop_last() =~= seq![a]);
    assert(seq![a, b].last() == b);
    assert(expand_list_text(seq![a]) == expand_text(a));
    assert(expand_list_text(seq![a, b]) == expand_text(a) + ","@ + expand_text(b));
    assert(e.nested_expand@.len() == 2);
    assert(expand_options(e) =~= seq!["$expand="@ + expand_list_text(e.nested_expand@)]);
    assert("$expand="@ + expand_list_text(e.nested_expand@) =~= "$expand="@ + expand_text(a) + ","@
        + expand_text(b));
    assert(expand_options(e) =~= seq!["$expand="@ + expand_text(a) + ","@ + expand_text(b)]);
    assert(join(expand_options(e), ";"@) == expand_options(e)[0]);
    assert(expand_text(e) =~= e.navigation@ + "($expand="@ + expand_text(a) + ","@ + expand_text(b)
        + ")"@);
}

// ── Order-by lists ─────────────────────────────────────────────────

/// The `$orderby` text of one item is its field, followed by ` desc` when
/// it is descending.
pub open spec fn one_order(o: OrderByClause) -> Seq<char> {
    if o.direction == Order::Desc {
        o.field@ + " desc"@
    } else {
        o.field@
    }
}

/// `$orderby` writes every item the same way wherever it stands: one item
/// gives `$orderby=field` (with ` desc` when descending), and the option
/// for two non-empty lists in a row is the first list's option, `,`, and
/// the second list's items.
pub proof fn lemma_orderby_items(o: OrderByClause, a: Seq<OrderByClause>, b: Seq<OrderByClause>)
    ensures
        order_option(seq![o]) == "$orderby="@ + one_order(o),
        a.len() > 0 && b.len() > 0 ==> order_option(a + b) == order_option(a) + ","@
            + order_option(b).subrange(9, order_option(b).len() as int),
{
    reveal_strlit("$orderby=");
    assert(order_texts(seq![o]) =~= seq![order_text(o)]);
    if a.len() > 0 && b.len() > 0 {
        assert(order_texts(a + b) =~= order_texts(a) + order_texts(b));
        lemma_join_concat(order_texts(a), order_texts(b), ","@);
        assert(order_option(b).subrange(9, order_option(b).len() as int) =~= join(
            order_texts(b),
            ","@,
        ));
        assert(order_option(a + b) =~= order_option(a) + ","@ + join(order_texts(b), ","@));
    }
}

// ── $select lists ──────────────────────────────────────────────────

/// `$select` names every field: one name gives `$select=name`, and the
/// option for two non-empty lists in a row is the first list's option,
/// `,`, and the second list's names.
pub proof fn lemma_select_names(n: Seq<char>, a: Seq<Seq<char>>, b: Seq<Seq<char>>)
    ensures
        select_option(seq![n]) == "$select="@ + n,
        a.len() > 0 && b.len() > 0 ==> select_option(a + b) == select_option(a) + ","@
            + select_option(b).subrange(8, select_option(b).len() as int),
{
    reveal_strlit("$select=");
    if a.len() > 0 && b.len() > 0 {
        lemma_join_concat(a, b, ","@);
        assert(select_option(b).subrange(8, select_option(b).len() as int) =~= join(b, ","@));
        assert(select_option(a + b) =~= select_option(a) + ","@ + join(b, ","@));
    }
}

// ── URLs carry the whole query string ──────────────────────────────

/// `q` with every query option cleared: only the base URL, the collection
/// and the key remain.
pub open spec fn location_only(q: QueryModel) -> QueryModel {
    QueryModel { base_url: q.base_url, collection: q.collection, key: q.key, ..empty_model() }
}

/// The URL is the URL of the bare location followed, when the query string
/// is not empty, by `?` and the whole query string: every option of the
/// query string is in the URL.
pub proof fn lemma_url_carries_query(q: QueryModel)
    requires
        q.base_url is Some,
    ensures
        url_text(location_only(q)) is Some,
        url_text(q) is Some,
        query_text(location_only(q)).len() == 0,
        url_text(q)->0 == url_text(location_only(q))->0 + (if query_text(q).len() > 0 {
            "?"@ + query_text(q)
        } else {
            seq![]
        }),
{
    let l = location_only(q);
    lemma_query_text_empty(l);
    assert(l.select =~= seq![]);
    assert(l.custom =~= seq![]);
    assert(no_options(l));
    assert(url_text(q)->0 =~= url_text(l)->0 + (if query_text(q).len() > 0 {
        "?"@ + query_text(q)
    } else {
        seq![]
    }));
}


// ── Filter nodes ───────────────────────────────────────────────────

/// How each kind of filter node is written in terms of its parts: a
/// comparison puts the field, the operator and the value's literal apart
/// by spaces; a logical node brackets both operands around its keyword;
/// `not` brackets its operand; a null check compares with `null`; a string
/// function passes the field and the same quoted literal a string value
/// has; a raw filter is its own text.
pub proof fn lemma_filter_node_texts(
    a: FilterExpr,
    b: FilterExpr,
    field: String,
    v: ODataValue,
    func: StringFunction,
    text: String,
)
    ensures
        filter_text(FilterExpr::Compare { field, op: CompareOp::Gt, value: v }) == field@ + " gt "@
            + value_text(v),
        filter_text(FilterExpr::Compare { field, op: CompareOp::Eq, value: v }) == field@ + " eq "@
            + value_text(v),
        filter_text(FilterExpr::Logical { left: Box::new(a), op: LogicalOp::And, right: Box::new(b) })
            == "("@ + filter_text(a) + ") and ("@ + filter_text(b) + ")"@,
        filter_text(FilterExpr::Logical { left: Box::new(a), op: LogicalOp::Or, right: Box::new(b) })
            == "("@ + filter_text(a) + ") or ("@ + filter_text(b) + ")"@,
        filter_text(FilterExpr::Not(Box::new(a))) == "not ("@ + filter_text(a) + ")"@,
        filter_text(FilterExpr::IsNull { field }) == field@ + " eq "@ + value_text(ODataValue::Null),
        filter_text(FilterExpr::IsNotNull { field }) == field@ + " ne "@ + value_text(
            ODataValue::Null,
        ),
        filter_text(FilterExpr::StringFunc { func, field, value: text }) == string_function_text(
            func,
        ) + "("@ + field@ + ", "@ + value_text(ODataValue::String(text)) + ")"@,
        filter_text(FilterExpr::Raw(text)) == text@,
{
    reveal_strlit(" ");
    reveal_strlit(" gt ");
    reveal_strlit(" eq ");
    reveal_strlit(" ne ");
    reveal_strlit("gt");
    reveal_strlit("eq");
    reveal_strlit("and");
    reveal_strlit("or");
    reveal_strlit("(");
    reveal_strlit(") ");
    reveal_strlit(" (");
    reveal_strlit(") and (");
    reveal_strlit(") or (");
    reveal_strlit(")");
    reveal_strlit(" eq null");
    reveal_strlit(" ne null");
    reveal_strlit(", ");
    reveal_strlit(", '");
    reveal_strlit("')");
    assert(filter_text(FilterExpr::Compare { field, op: CompareOp::Gt, value: v }) =~= field@
        + " gt "@ + value_text(v));
    assert(filter_text(FilterExpr::Compare { field, op: CompareOp::Eq, value: v }) =~= field@
        + " eq "@ + value_text(v));
    assert(filter_text(
        FilterExpr::Logical { left: Box::new(a), op: LogicalOp::And, right: Box::new(b) },
    ) =~= "("@ + filter_text(a) + ") and ("@ + filter_text(b) + ")"@);
    assert(filter_text(
        FilterExpr::Logical { left: Box::new(a), op: LogicalOp::Or, right: Box::new(b) },
    ) =~= "("@ + filter_text(a) + ") or ("@ + filter_text(b) + ")"@);
    assert(filter_text(FilterExpr::IsNull { field }) =~= field@ + " eq "@ + value_text(
        ODataValue::Null,
    ));
    assert(filter_text(FilterExpr::IsNotNull { field }) =~= field@ + " ne "@ + value_text(
        ODataValue::Null,
    ));
    assert(filter_text(FilterExpr::StringFunc { func, field, value: text }) =~= string_function_text(
        func,
    ) + "("@ + field@ + ", "@ + value_text(ODataValue::String(text)) + ")"@);
}

// ── Query strings, option by option ────────────────────────────────

/// A query with one option set writes just that option: `$top=` and
/// `$skip=` with the number's digits (the same digits as its integer
/// literal), `$count=` with the boolean's literal, `$search=` and
/// `$format=` with their text verbatim, `$filter=` with the filter's text.
pub proof fn lemma_single_option_queries(n: usize, b: bool, t: Seq<char>, f: FilterExpr)
    ensures
        query_text(QueryModel { top: Some(n), ..empty_model() }) == "$top="@ + decimal(n as nat),
        digits_value(decimal(n as nat)) == n,
        n <= i64::MAX ==> decimal(n as nat) == value_text(ODataValue::Int(n as i64)),
        query_text(QueryModel { skip: Some(n), ..empty_model() }) == "$skip="@ + decimal(n as nat),
        query_text(QueryModel { count: Some(b), ..empty_model() }) == "$count="@ + value_text(
            ODataValue::Boolean(b),
        ),
        query_text(QueryModel { search: Some(t), ..empty_model() }) == "$search="@ + t,
        query_text(QueryModel { format: Some(t), ..empty_model() }) == "$format="@ + t,
        query_text(QueryModel { filter: Some(f), ..empty_model() }) == "$filter="@ + filter_text(f),
{
    lemma_decimal_reads_back(n as nat);
    let e = empty_model();
    assert(e.select =~= seq![]);
    assert(custom_texts(e.custom) =~= seq![]);
    let q1 = QueryModel { top: Some(n), ..e };
    assert(query_parts(q1) =~= seq!["$top="@ + decimal(n as nat)]);
    let q2 = QueryModel { skip: Some(n), ..e };
    assert(query_parts(q2) =~= seq!["$skip="@ + decimal(n as nat)]);
    let q3 = QueryModel { count: Some(b), ..e };
    assert(query_parts(q3) =~= seq!["$count="@ + crate::value::bool_text(b)]);
    let q4 = QueryModel { search: Some(t), ..e };
    assert(query_parts(q4) =~= seq!["$search="@ + t]);
    let q5 = QueryModel { format: Some(t), ..e };
    assert(query_parts(q5) =~= seq!["$format="@ + t]);
    let q6 = QueryModel { filter: Some(f), ..e };
    assert(query_parts(q6) =~= seq!["$filter="@ + filter_text(f)]);
}

/// Adding a custom parameter puts `key=value` at the end of the query
/// string, after an `&` when the string was not empty; nothing before it
/// changes.
pub proof fn lemma_custom_parameter_appends(q: QueryModel, k: Seq<char>, v: Seq<char>)
    ensures
        query_text(QueryModel { custom: q.custom.push((k, v)), ..q }) == query_text(q) + (if query_text(
            q,
        ).len() > 0 {
            "&"@
        } else {
            seq![]
        }) + k + "="@ + v,
{
    let q2 = QueryModel { custom: q.custom.push((k, v)), ..q };
    assert(custom_texts(q.custom.push((k, v))) =~= custom_texts(q.custom).push(
        custom_text((k, v)),
    ));
    assert(query_parts(q2) =~= query_parts(q).push(k + "="@ + v));
    lemma_all_parts_nonempty(q);
    lemma_join_empty(query_parts(q), "&"@);
    if query_parts(q).len() == 0 {
        assert(query_parts(q2) =~= seq![k + "="@ + v]);
    } else {
        lemma_join_concat(query_parts(q), seq![k + "="@ + v], "&"@);
        assert(query_parts(q) + seq![k + "="@ + v] =~= query_parts(q2));
    }
    assert(query_text(q2) =~= query_text(q) + (if query_text(q).len() > 0 {
        "&"@
    } else {
        seq![]
    }) + k + "="@ + v);
}


// ── Expand options ─────────────────────────────────────────────────

/// An expand clause's text starts with its navigation property; setting
/// `$top` on a clause with no `$top`, `$skip` or nested clauses adds
/// `$top=` and the number's digits as the last option: in new brackets
/// when there were no options, after a `;` inside the brackets otherwise.
pub proof fn lemma_expand_top_appends(e: ExpandClause, n: usize)
    requires
        e.top is None,
        e.skip is None,
        e.nested_expand@.len() == 0,
    ensures
        expand_text(e).len() >= e.navigation@.len(),
        expand_text(e).subrange(0, e.navigation@.len() as int) == e.navigation@,
        expand_text(ExpandClause { top: Some(n), ..e }) == if expand_options(e).len() == 0 {
            e.navigation@ + "($top="@ + decimal(n as nat) + ")"@
        } else {
            expand_text(e).drop_last() + ";$top="@ + decimal(n as nat) + ")"@
        },
{
    reveal_strlit("(");
    reveal_strlit(")");
    reveal_strlit(";");
    reveal_strlit("$top=");
    reveal_strlit("($top=");
    reveal_strlit(";$top=");
    let e2 = ExpandClause { top: Some(n), ..e };
    let top_text = "$top="@ + decimal(n as nat);
    assert(expand_options(e2) =~= expand_options(e).push(top_text));
    assert(expand_text(e).subrange(0, e.navigation@.len() as int) =~= e.navigation@);
    if expand_options(e).len() == 0 {
        assert(expand_options(e2) =~= seq![top_text]);
        assert(expand_text(e2) =~= e.navigation@ + "($top="@ + decimal(n as nat) + ")"@);
    } else {
        lemma_join_concat(expand_options(e), seq![top_text], ";"@);
        assert(expand_options(e) + seq![top_text] =~= expand_options(e2));
        assert(expand_text(e).drop_last() =~= e.navigation@ + "("@ + join(expand_options(e), ";"@));
        assert(expand_text(e2) =~= expand_text(e).drop_last() + ";$top="@ + decimal(n as nat) + ")"@);
    }
}

} // verus!
