//! `$expand` clauses with their nested query options, and `$orderby` items.

use vstd::prelude::*;

use crate::field::FieldRef;
use crate::filter::{filter_text, same_filter, FilterExpr, LogicalOp, ODataFilter};
use crate::text::{decimal, join, join_strings, push_decimal, views};

verus! {

// ── OrderBy (used in expand and top-level) ─────────────────────────

/// Sort direction.
#[derive(Debug, Clone, Copy, PartialEq)]
pub enum Order {
    Asc,
    Desc,
}

/// A single order-by clause.
#[derive(Debug)]
pub struct OrderByClause {
    pub field: String,
    pub direction: Order,
}

/// The text of an order-by item: the field, followed by ` desc` when the
/// direction is descending.
pub open spec fn order_text(o: OrderByClause) -> Seq<char> {
    match o.direction {
        Order::Asc => o.field@,
        Order::Desc => o.field@ + " desc"@,
    }
}

/// The texts of a list of order-by items.
pub open spec fn order_texts(items: Seq<OrderByClause>) -> Seq<Seq<char>> {
    items.map_values(|o: OrderByClause| order_text(o))
}

impl OrderByClause {
    /// The clause as it appears in `$orderby`.
    pub fn to_string_fragment(&self) -> (s: String)
        ensures
            s@ == order_text(*self),
    {
        let mut s = self.field.clone();
        match self.direction {
            Order::Asc => {},
            Order::Desc => {
                s.append(" desc");
            },
        }
        s
    }
}

impl Clone for OrderByClause {
    fn clone(&self) -> (res: Self)
        ensures
            res == *self,
    {
        OrderByClause { field: self.field.clone(), direction: self.direction }
    }
}

/// An order-by clause on `field`.
pub(crate) fn order_clause(field: &str, direction: Order) -> (o: OrderByClause)
    ensures
        o.field@ == field@,
        o.direction == direction,
{
    OrderByClause { field: field.to_owned(), direction }
}

/// The items of `$orderby`, joined by `,`.
pub(crate) fn order_list(items: &Vec<OrderByClause>) -> (s: String)
    ensures
        s@ == join(order_texts(items@), ","@),
{
    let mut s = String::new();
    let ghost all = order_texts(items@);
    let mut i: usize = 0;
    while i < items.len()
        invariant
            0 <= i <= items.len(),
            all == order_texts(items@),
            all.len() == items@.len(),
            s@ == join(all.take(i as int), ","@),
        decreases items.len() - i,
    {
        assert(all.take(i + 1).drop_last() =~= all.take(i as int));
        if i > 0 {
            s.append(",");
        } else {
            assert(s@ =~= seq![]);
        }
        let frag = items[i].to_string_fragment();
        s.append(frag.as_str());
        assert(all[i as int] == order_text(items@[i as int]));
        i = i + 1;
    }
    assert(all.take(i as int) =~= all);
    s
}

/// The names of a list of fields, in order.
pub(crate) fn field_names(fields: &[&dyn FieldRef]) -> (names: Vec<String>)
    ensures
        views(names@) == field_name_views(fields@),
{
    let mut names: Vec<String> = Vec::new();
    let mut i: usize = 0;
    while i < fields.len()
        invariant
            i <= fields@.len(),
            names@.len() == i,
            views(names@) == field_name_views(fields@).take(i as int),
        decreases fields@.len() - i,
    {
        let name = fields[i].field_name();
        assert(name@ == fields@[i as int].name_view());
        names.push(name.to_owned());
        i = i + 1;
        assert(views(names@) =~= field_name_views(fields@).take(i as int));
    }
    assert(field_name_views(fields@).take(i as int) =~= field_name_views(fields@));
    names
}

/// The names of a list of fields, in order.
pub open spec fn field_name_views(fields: Seq<&dyn FieldRef>) -> Seq<Seq<char>> {
    fields.map_values(|f: &dyn FieldRef| f.name_view())
}

/// The views of a list of string slices.
pub open spec fn str_views(items: Seq<&str>) -> Seq<Seq<char>> {
    items.map_values(|s: &str| s@)
}

/// Owned copies of a list of string slices.
pub(crate) fn owned_strings(items: &[&str]) -> (v: Vec<String>)
    ensures
        views(v@) == str_views(items@),
{
    let mut v: Vec<String> = Vec::new();
    let mut i: usize = 0;
    while i < items.len()
        invariant
            i <= items@.len(),
            v@.len() == i,
            views(v@) == str_views(items@).take(i as int),
        decreases items@.len() - i,
    {
        let item: &str = items[i];
        let owned: String = item.to_owned();
        v.push(owned);
        i = i + 1;
        assert(views(v@) =~= str_views(items@).take(i as int));
    }
    assert(str_views(items@).take(i as int) =~= str_views(items@));
    v
}

/// The filter after one more is added: ANDed with the filter already there.
pub open spec fn and_filter(existing: Option<FilterExpr>, new_expr: FilterExpr) -> Option<FilterExpr> {
    match existing {
        Some(old_expr) => Some(
            FilterExpr::Logical {
                left: Box::new(old_expr),
                op: LogicalOp::And,
                right: Box::new(new_expr),
            },
        ),
        None => Some(new_expr),
    }
}

/// ANDs `new_expr` onto `existing`.
pub(crate) fn and_filter_exec(existing: Option<FilterExpr>, new_expr: FilterExpr) -> (f: Option<FilterExpr>)
    ensures
        f == and_filter(existing, new_expr),
{
    match existing {
        Some(old_expr) => Some(
            FilterExpr::Logical {
                left: Box::new(old_expr),
                op: LogicalOp::And,
                right: Box::new(new_expr),
            },
        ),
        None => Some(new_expr),
    }
}

// ── Expand clause ──────────────────────────────────────────────────

/// An OData `$expand` clause, optionally with nested query options.
#[derive(Debug)]
pub struct ExpandClause {
    pub navigation: String,
    pub select: Vec<String>,
    pub filter: Option<FilterExpr>,
    pub order_by: Vec<OrderByClause>,
    pub top: Option<usize>,
    pub skip: Option<usize>,
    pub nested_expand: Vec<ExpandClause>,
}

/// One option when `present`, none otherwise.
pub open spec fn option_if(present: bool, text: Seq<char>) -> Seq<Seq<char>> {
    if present {
        seq![text]
    } else {
        seq![]
    }
}

/// The `$select=...` option for a list of names.
pub open spec fn select_option(names: Seq<Seq<char>>) -> Seq<char> {
    "$select="@ + join(names, ","@)
}

/// The `$filter=...` option.
pub open spec fn filter_option(f: FilterExpr) -> Seq<char> {
    "$filter="@ + filter_text(f)
}

/// The `$orderby=...` option.
pub open spec fn order_option(items: Seq<OrderByClause>) -> Seq<char> {
    "$orderby="@ + join(order_texts(items), ","@)
}

/// The `$top=...` option.
pub open spec fn top_option(n: usize) -> Seq<char> {
    "$top="@ + decimal(n as nat)
}

/// The `$skip=...` option.
pub open spec fn skip_option(n: usize) -> Seq<char> {
    "$skip="@ + decimal(n as nat)
}

/// The options inside an expand clause, in the order `$select`, `$filter`,
/// `$orderby`, `$top`, `$skip`, `$expand`; each only when set.
pub open spec fn expand_options(e: ExpandClause) -> Seq<Seq<char>>
    decreases e, 0nat,
{
    option_if(e.select@.len() > 0, select_option(views(e.select@)))
        + option_if(e.filter is Some, filter_option(e.filter->0))
        + option_if(e.order_by@.len() > 0, order_option(e.order_by@))
        + option_if(e.top is Some, top_option(e.top->0))
        + option_if(e.skip is Some, skip_option(e.skip->0))
        + option_if(e.nested_expand@.len() > 0, "$expand="@ + expand_list_text(e.nested_expand@))
}

/// The text of an expand clause: the navigation property, followed by its
/// options in brackets, separated by `;`, when there are any.
pub open spec fn expand_text(e: ExpandClause) -> Seq<char>
    decreases e, 1nat,
{
    if expand_options(e).len() == 0 {
        e.navigation@
    } else {
        e.navigation@ + "("@ + join(expand_options(e), ";"@) + ")"@
    }
}

/// The texts of a list of expand clauses, joined by `,`.
pub open spec fn expand_list_text(items: Seq<ExpandClause>) -> Seq<char>
    decreases items, 0nat,
{
    if items.len() == 0 {
        seq![]
    } else if items.len() == 1 {
        expand_text(items[0])
    } else {
        expand_list_text(items.drop_last()) + ","@ + expand_text(items.last())
    }
}


/// Appends `prefix` followed by `body` as one more option or parameter.
pub(crate) fn push_option(options: &mut Vec<String>, prefix: &str, body: &str)
    ensures
        views(final(options)@) == views(old(options)@).push(prefix@ + body@),
{
    let mut o = String::new();
    o.append(prefix);
    o.append(body);
    options.push(o);
    assert(views(final(options)@) =~= views(old(options)@).push(prefix@ + body@));
}

/// The decimal text of a count.
fn count_text(n: usize) -> (s: String)
    ensures
        s@ == decimal(n as nat),
{
    let mut s = String::new();
    push_decimal(&mut s, n as u64);
    assert(s@ =~= decimal(n as nat));
    s
}

impl ExpandClause {
    /// Creates an expand for a navigation property, with no options.
    pub fn new(navigation: &str) -> (e: ExpandClause)
        ensures
            e.navigation@ == navigation@,
            e.select@.len() == 0,
            e.filter is None,
            e.order_by@.len() == 0,
            e.top is None,
            e.skip is None,
            e.nested_expand@.len() == 0,
    {
        ExpandClause {
            navigation: navigation.to_owned(),
            select: Vec::new(),
            filter: None,
            order_by: Vec::new(),
            top: None,
            skip: None,
            nested_expand: Vec::new(),
        }
    }

    /// Sets the `$select` inside this expand (string-based), replacing any
    /// earlier one.
    pub fn select_str(self, fields: &[&str]) -> (e: ExpandClause)
        ensures
            e == (ExpandClause { select: e.select, ..self }),
            views(e.select@) == str_views(fields@),
    {
        let mut e = self;
        e.select = owned_strings(fields);
        e
    }

    /// Sets the `$select` inside this expand (typed fields), replacing any
    /// earlier one: one name per field, in order.
    pub fn select_fields(self, fields: &[&dyn FieldRef]) -> (e: ExpandClause)
        ensures
            e == (ExpandClause { select: e.select, ..self }),
            views(e.select@) == field_name_views(fields@),
    {
        let mut e = self;
        e.select = field_names(fields);
        e
    }

    /// Adds a `$filter` expression inside this expand; it is ANDed with
    /// any filter already set.
    pub fn filter_expr(self, new_expr: FilterExpr) -> (e: ExpandClause)
        ensures
            e == (ExpandClause { filter: and_filter(self.filter, new_expr), ..self }),
    {
        let mut e = self;
        let existing = e.filter.take();
        e.filter = and_filter_exec(existing, new_expr);
        e
    }

    /// Adds a `$filter` inside this expand; multiple calls are ANDed
    /// together.
    pub fn filter<F: ODataFilter>(self, filter: F) -> (e: ExpandClause)
        ensures
            exists|added: FilterExpr|
                call_ensures(F::into_filter_expr, (filter,), added) && e == (ExpandClause {
                    filter: and_filter(self.filter, added),
                    ..self
                }),
    {
        let new_expr = filter.into_filter_expr();
        self.filter_expr(new_expr)
    }

    /// Adds an `$orderby` item inside this expand (string-based), after
    /// those already there.
    pub fn order_by(self, field: &str, direction: Order) -> (e: ExpandClause)
        ensures
            e == (ExpandClause { order_by: e.order_by, ..self }),
            e.order_by@.len() == self.order_by@.len() + 1,
            e.order_by@.drop_last() == self.order_by@,
            e.order_by@.last().field@ == field@,
            e.order_by@.last().direction == direction,
    {
        let mut e = self;
        e.order_by.push(order_clause(field, direction));
        assert(e.order_by@.drop_last() =~= self.order_by@);
        e
    }

    /// Adds an `$orderby` item inside this expand (typed field), after
    /// those already there.
    pub fn order_by_field(self, field: &dyn FieldRef, direction: Order) -> (e: ExpandClause)
        ensures
            e == (ExpandClause { order_by: e.order_by, ..self }),
            e.order_by@.len() == self.order_by@.len() + 1,
            e.order_by@.drop_last() == self.order_by@,
            e.order_by@.last().field@ == field.name_view(),
            e.order_by@.last().direction == direction,
    {
        let mut e = self;
        e.order_by.push(order_clause(field.field_name(), direction));
        assert(e.order_by@.drop_last() =~= self.order_by@);
        e
    }

    /// Sets `$top` inside this expand.
    pub fn top(self, n: usize) -> (e: ExpandClause)
        ensures
            e == (ExpandClause { top: Some(n), ..self }),
    {
        let mut e = self;
        e.top = Some(n);
        e
    }

    /// Sets `$skip` inside this expand.
    pub fn skip(self, n: usize) -> (e: ExpandClause)
        ensures
            e == (ExpandClause { skip: Some(n), ..self }),
    {
        let mut e = self;
        e.skip = Some(n);
        e
    }

    /// Adds a nested `$expand` inside this expand, after those already there.
    pub fn expand(self, nested: ExpandClause) -> (e: ExpandClause)
        ensures
            e == (ExpandClause { nested_expand: e.nested_expand, ..self }),
            e.nested_expand@ == self.nested_expand@.push(nested),
    {
        let mut e = self;
        e.nested_expand.push(nested);
        e
    }

    /// Serializes to the OData expand string.
    pub fn to_expand_string(&self) -> (s: String)
        ensures
            s@ == expand_text(*self),
        decreases self,
    {
        let mut options: Vec<String> = Vec::new();
        let ghost o1 = option_if(self.select@.len() > 0, select_option(views(self.select@)));
        let ghost o2 = option_if(self.filter is Some, filter_option(self.filter->0));
        let ghost o3 = option_if(self.order_by@.len() > 0, order_option(self.order_by@));
        let ghost o4 = option_if(self.top is Some, top_option(self.top->0));
        let ghost o5 = option_if(self.skip is Some, skip_option(self.skip->0));
        let ghost o6 = option_if(
            self.nested_expand@.len() > 0,
            "$expand="@ + expand_list_text(self.nested_expand@),
        );
        if self.select.len() > 0 {
            let names = join_strings(&self.select, ",");
            push_option(&mut options, "$select=", names.as_str());
        }
        assert(views(options@) =~= o1);
        if let Some(filter) = &self.filter {
            let text = filter.to_filter_string();
            push_option(&mut options, "$filter=", text.as_str());
        }
        assert(views(options@) =~= o1 + o2);
        if self.order_by.len() > 0 {
            let parts = order_list(&self.order_by);
            push_option(&mut options, "$orderby=", parts.as_str());
        }
        assert(views(options@) =~= o1 + o2 + o3);
        if let Some(top) = self.top {
            let n = count_text(top);
            push_option(&mut options, "$top=", n.as_str());
        }
        assert(views(options@) =~= o1 + o2 + o3 + o4);
        if let Some(skip) = self.skip {
            let n = count_text(skip);
            push_option(&mut options, "$skip=", n.as_str());
        }
        assert(views(options@) =~= o1 + o2 + o3 + o4 + o5);
        if self.nested_expand.len() > 0 {
            let list = expand_list_string(&self.nested_expand);
            push_option(&mut options, "$expand=", list.as_str());
        }
        assert(views(options@) =~= expand_options(*self));
        if options.len() == 0 {
            self.navigation.clone()
        } else {
            let mut s = self.navigation.clone();
            s.append("(");
            let joined = join_strings(&options, ";");
            s.append(joined.as_str());
            s.append(")");
            s
        }
    }
}

/// The texts of a list of expand clauses, joined by `,`.
pub(crate) fn expand_list_string(items: &Vec<ExpandClause>) -> (s: String)
    ensures
        s@ == expand_list_text(items@),
    decreases items@,
{
    let mut list = String::new();
    let ghost all = items@;
    let mut i: usize = 0;
    while i < items.len()
        invariant
            0 <= i <= items@.len(),
            all == items@,
            list@ == expand_list_text(all.take(i as int)),
        decreases items@.len() - i,
    {
        assert(all.take(i + 1).drop_last() =~= all.take(i as int));
        if i > 0 {
            list.append(",");
        } else {
            assert(list@ =~= seq![]);
        }
        let inner = items[i].to_expand_string();
        list.append(inner.as_str());
        i = i + 1;
    }
    assert(all.take(i as int) =~= all);
    list
}

/// Convenience: creates an expand clause.
pub fn expand(navigation: &str) -> (e: ExpandClause)
    ensures
        e.navigation@ == navigation@,
        e.select@.len() == 0,
        e.filter is None,
        e.order_by@.len() == 0,
        e.top is None,
        e.skip is None,
        e.nested_expand@.len() == 0,
{
    ExpandClause::new(navigation)
}

/// Two expand clauses are the same: equal option by option, with lists
/// compared by their contents and nested clauses compared the same way.
pub open spec fn same_expand(a: ExpandClause, b: ExpandClause) -> bool
    decreases a, 1nat,
{
    &&& a.navigation == b.navigation
    &&& a.select@ == b.select@
    &&& match a.filter {
        Some(f) => b.filter matches Some(g) && same_filter(f, g),
        None => b.filter is None,
    }
    &&& a.order_by@ == b.order_by@
    &&& a.top == b.top
    &&& a.skip == b.skip
    &&& same_expand_list(a.nested_expand@, b.nested_expand@)
}

/// Two lists of expand clauses are the same, clause by clause.
pub open spec fn same_expand_list(a: Seq<ExpandClause>, b: Seq<ExpandClause>) -> bool
    decreases a, 0nat,
{
    if a.len() == 0 {
        b.len() == 0
    } else {
        &&& b.len() == a.len()
        &&& same_expand_list(a.drop_last(), b.drop_last())
        &&& same_expand(a.last(), b.last())
    }
}

/// Copies a list of strings.
pub(crate) fn clone_strings(items: &Vec<String>) -> (res: Vec<String>)
    ensures
        res@ == items@,
{
    let mut res: Vec<String> = Vec::new();
    let mut i: usize = 0;
    while i < items.len()
        invariant
            i <= items.len(),
            res@ == items@.take(i as int),
        decreases items.len() - i,
    {
        res.push(items[i].clone());
        i = i + 1;
        assert(res@ =~= items@.take(i as int));
    }
    assert(items@.take(i as int) =~= items@);
    res
}

/// Copies a list of order-by items.
pub(crate) fn clone_orders(items: &Vec<OrderByClause>) -> (res: Vec<OrderByClause>)
    ensures
        res@ == items@,
{
    let mut res: Vec<OrderByClause> = Vec::new();
    let mut i: usize = 0;
    while i < items.len()
        invariant
            i <= items.len(),
            res@ == items@.take(i as int),
        decreases items.len() - i,
    {
        res.push(items[i].clone());
        i = i + 1;
        assert(res@ =~= items@.take(i as int));
    }
    assert(items@.take(i as int) =~= items@);
    res
}

/// Copies an optional filter.
pub(crate) fn clone_filter(f: &Option<FilterExpr>) -> (res: Option<FilterExpr>)
    ensures
        match *f {
            Some(e) => res matches Some(g) && same_filter(g, e),
            None => res is None,
        },
{
    match f {
        Some(e) => Some(e.clone()),
        None => None,
    }
}

proof fn lemma_same_filter_symmetric(a: FilterExpr, b: FilterExpr)
    requires
        same_filter(a, b),
    ensures
        same_filter(b, a),
    decreases a,
{
    match a {
        FilterExpr::Logical { left, op, right } => match b {
            FilterExpr::Logical { left: left2, op: op2, right: right2 } => {
                lemma_same_filter_symmetric(*left, *left2);
                lemma_same_filter_symmetric(*right, *right2);
            },
            _ => {},
        },
        FilterExpr::Not(inner) => match b {
            FilterExpr::Not(inner2) => {
                lemma_same_filter_symmetric(*inner, *inner2);
            },
            _ => {},
        },
        _ => {},
    }
}

impl Clone for ExpandClause {
    fn clone(&self) -> (res: Self)
        ensures
            same_expand(*self, res),
        decreases self,
    {
        let mut nested: Vec<ExpandClause> = Vec::new();
        let mut i: usize = 0;
        while i < self.nested_expand.len()
            invariant
                i <= self.nested_expand@.len(),
                same_expand_list(self.nested_expand@.take(i as int), nested@),
            decreases self.nested_expand@.len() - i,
        {
            let c = self.nested_expand[i].clone();
            let ghost before = nested@;
            nested.push(c);
            assert(self.nested_expand@.take(i + 1).drop_last() =~= self.nested_expand@.take(i as int));
            assert(nested@.drop_last() =~= before);
            i = i + 1;
        }
        let filter = clone_filter(&self.filter);
        proof {
            if self.filter is Some {
                lemma_same_filter_symmetric(filter->0, self.filter->0);
            }
        }
        let res = ExpandClause {
            navigation: self.navigation.clone(),
            select: clone_strings(&self.select),
            filter,
            order_by: clone_orders(&self.order_by),
            top: self.top,
            skip: self.skip,
            nested_expand: nested,
        };
        assert(self.nested_expand@.take(self.nested_expand@.len() as int) =~= self.nested_expand@);
        res
    }
}

// ── IntoExpand trait ───────────────────────────────────────────────

/// Types that can be converted into an expand clause; lets users define
/// reusable expand patterns.
pub trait IntoExpand {
    fn into_expand(self) -> ExpandClause;
}

impl IntoExpand for ExpandClause {
    fn into_expand(self) -> (e: ExpandClause)
        ensures
            e == self,
    {
        self
    }
}

impl<'a> IntoExpand for &'a str {
    fn into_expand(self) -> (e: ExpandClause)
        ensures
            e.navigation@ == self@,
            e.select@.len() == 0,
            e.filter is None,
            e.order_by@.len() == 0,
            e.top is None,
            e.skip is None,
            e.nested_expand@.len() == 0,
    {
        ExpandClause::new(self)
    }
}

impl IntoExpand for String {
    fn into_expand(self) -> (e: ExpandClause)
        ensures
            e.navigation@ == self@,
            e.select@.len() == 0,
            e.filter is None,
            e.order_by@.len() == 0,
            e.top is None,
            e.skip is None,
            e.nested_expand@.len() == 0,
    {
        ExpandClause::new(self.as_str())
    }
}

} // verus!
