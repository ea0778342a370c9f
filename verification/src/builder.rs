//! The main OData query builder and its serialisation to a query string
//! and a full URL.

use vstd::prelude::*;

use crate::expand::{
    and_filter, and_filter_exec, expand_list_string, push_option, clone_filter, clone_orders, clone_strings, expand_list_text,
    field_name_views, field_names, option_if, order_clause, order_list, order_option, owned_strings,
    same_expand_list, select_option, str_views, ExpandClause, IntoExpand, Order, OrderByClause,
};
use crate::field::FieldRef;
use crate::filter::{filter_text, same_filter, FilterExpr, ODataFilter};
use crate::text::{decimal, join, join_strings, push_char, push_decimal, trim_end, trim_end_char, views};
use crate::value::{bool_text, push_bool};

verus! {

/// What a query holds, as mathematical values.
pub struct QueryModel {
    pub base_url: Option<Seq<char>>,
    pub collection: Option<Seq<char>>,
    pub key: Option<Seq<char>>,
    pub filter: Option<FilterExpr>,
    pub select: Seq<Seq<char>>,
    pub order_by: Seq<OrderByClause>,
    pub expand: Seq<ExpandClause>,
    pub top: Option<usize>,
    pub skip: Option<usize>,
    pub count: Option<bool>,
    pub search: Option<Seq<char>>,
    pub format: Option<Seq<char>>,
    pub custom: Seq<(Seq<char>, Seq<char>)>,
}

/// The main OData query builder.
///
/// Build queries fluently, then call `to_query_string` or `to_url` to
/// serialise.
#[derive(Debug)]
pub struct ODataQuery {
    base_url: Option<String>,
    collection: Option<String>,
    key: Option<String>,
    filter: Option<FilterExpr>,
    select: Vec<String>,
    order_by: Vec<OrderByClause>,
    expand: Vec<ExpandClause>,
    top: Option<usize>,
    skip: Option<usize>,
    count: Option<bool>,
    search: Option<String>,
    format: Option<String>,
    custom: Vec<(String, String)>,
}

/// The view of an optional string.
pub open spec fn opt_view(s: Option<String>) -> Option<Seq<char>> {
    match s {
        Some(t) => Some(t@),
        None => None,
    }
}

/// The views of a list of key/value pairs.
pub open spec fn pair_views(items: Seq<(String, String)>) -> Seq<(Seq<char>, Seq<char>)> {
    items.map_values(|p: (String, String)| (p.0@, p.1@))
}

impl View for ODataQuery {
    type V = QueryModel;

    closed spec fn view(&self) -> QueryModel {
        QueryModel {
            base_url: opt_view(self.base_url),
            collection: opt_view(self.collection),
            key: opt_view(self.key),
            filter: self.filter,
            select: views(self.select@),
            order_by: self.order_by@,
            expand: self.expand@,
            top: self.top,
            skip: self.skip,
            count: self.count,
            search: opt_view(self.search),
            format: opt_view(self.format),
            custom: pair_views(self.custom@),
        }
    }
}

/// The model of a query with nothing set.
pub open spec fn empty_model() -> QueryModel {
    QueryModel {
        base_url: None,
        collection: None,
        key: None,
        filter: None,
        select: seq![],
        order_by: seq![],
        expand: seq![],
        top: None,
        skip: None,
        count: None,
        search: None,
        format: None,
        custom: seq![],
    }
}

/// A custom parameter: `key=value`.
pub open spec fn custom_text(p: (Seq<char>, Seq<char>)) -> Seq<char> {
    p.0 + "="@ + p.1
}

/// The texts of the custom parameters.
pub open spec fn custom_texts(items: Seq<(Seq<char>, Seq<char>)>) -> Seq<Seq<char>> {
    items.map_values(|p: (Seq<char>, Seq<char>)| custom_text(p))
}

/// The parameters of a query string, in the order `$filter`, `$select`,
/// `$orderby`, `$expand`, `$top`, `$skip`, `$count`, `$search`, `$format`,
/// then the custom parameters; each `$` option only when set.
pub open spec fn query_parts(q: QueryModel) -> Seq<Seq<char>> {
    option_if(q.filter is Some, "$filter="@ + filter_text(q.filter->0))
        + option_if(q.select.len() > 0, select_option(q.select))
        + option_if(q.order_by.len() > 0, order_option(q.order_by))
        + option_if(q.expand.len() > 0, "$expand="@ + expand_list_text(q.expand))
        + option_if(q.top is Some, "$top="@ + decimal(q.top->0 as nat))
        + option_if(q.skip is Some, "$skip="@ + decimal(q.skip->0 as nat))
        + option_if(q.count is Some, "$count="@ + bool_text(q.count->0))
        + option_if(q.search is Some, "$search="@ + q.search->0)
        + option_if(q.format is Some, "$format="@ + q.format->0)
        + custom_texts(q.custom)
}

/// The query string: the parameters joined by `&`.
pub open spec fn query_text(q: QueryModel) -> Seq<char> {
    join(query_parts(q), "&"@)
}

/// The full URL: the base URL without its trailing slashes, `/` and the
/// collection when set, the key when set, then `?` and the query string
/// when it is not empty. There is none without a base URL.
pub open spec fn url_text(q: QueryModel) -> Option<Seq<char>> {
    match q.base_url {
        None => None,
        Some(base) => Some(
            trim_end(base, '/') + (match q.collection {
                Some(c) => "/"@ + c,
                None => seq![],
            }) + (match q.key {
                Some(k) => k,
                None => seq![],
            }) + (if query_text(q).len() > 0 {
                "?"@ + query_text(q)
            } else {
                seq![]
            }),
        ),
    }
}

/// What a query shows as text: its URL when it has a base URL, else its
/// query string.
pub open spec fn display_text(q: QueryModel) -> Seq<char> {
    match url_text(q) {
        Some(u) => u,
        None => query_text(q),
    }
}


/// Copies an optional string.
fn clone_opt(s: &Option<String>) -> (r: Option<String>)
    ensures
        opt_view(r) == opt_view(*s),
{
    match s {
        Some(t) => Some(t.clone()),
        None => None,
    }
}

/// Copies a list of key/value pairs.
fn clone_pairs(items: &Vec<(String, String)>) -> (res: Vec<(String, String)>)
    ensures
        pair_views(res@) == pair_views(items@),
{
    let mut res: Vec<(String, String)> = Vec::new();
    let mut i: usize = 0;
    while i < items.len()
        invariant
            i <= items.len(),
            res@ == items@.take(i as int),
        decreases items.len() - i,
    {
        let p = &items[i];
        res.push((p.0.clone(), p.1.clone()));
        i = i + 1;
        assert(res@ =~= items@.take(i as int));
    }
    assert(items@.take(i as int) =~= items@);
    res
}

/// Copies a list of expand clauses.
fn clone_expands(items: &Vec<ExpandClause>) -> (res: Vec<ExpandClause>)
    ensures
        same_expand_list(items@, res@),
{
    let mut res: Vec<ExpandClause> = Vec::new();
    let mut i: usize = 0;
    while i < items.len()
        invariant
            i <= items@.len(),
            same_expand_list(items@.take(i as int), res@),
        decreases items@.len() - i,
    {
        let c = items[i].clone();
        let ghost before = res@;
        res.push(c);
        assert(items@.take(i + 1).drop_last() =~= items@.take(i as int));
        assert(res@.drop_last() =~= before);
        i = i + 1;
    }
    assert(items@.take(items@.len() as int) =~= items@);
    res
}

/// Copies an optional string slice.
fn owned_opt(s: &str) -> (r: Option<String>)
    ensures
        opt_view(r) == Some(s@),
{
    Some(s.to_owned())
}

impl Clone for ODataQuery {
    fn clone(&self) -> (res: Self)
        ensures
            res@ == (QueryModel { filter: res@.filter, expand: res@.expand, ..self@ }),
            match self@.filter {
                Some(e) => res@.filter matches Some(g) && same_filter(g, e),
                None => res@.filter is None,
            },
            same_expand_list(self@.expand, res@.expand),
    {
        let res = ODataQuery {
            base_url: clone_opt(&self.base_url),
            collection: clone_opt(&self.collection),
            key: clone_opt(&self.key),
            filter: clone_filter(&self.filter),
            select: clone_strings(&self.select),
            order_by: clone_orders(&self.order_by),
            expand: clone_expands(&self.expand),
            top: self.top,
            skip: self.skip,
            count: self.count,
            search: clone_opt(&self.search),
            format: clone_opt(&self.format),
            custom: clone_pairs(&self.custom),
        };
        res
    }
}

impl Default for ODataQuery {
    fn default() -> (q: Self)
        ensures
            q@ == empty_model(),
    {
        ODataQuery::new()
    }
}

impl ODataQuery {
    /// Creates a new empty query builder.
    pub fn new() -> (q: ODataQuery)
        ensures
            q@ == empty_model(),
    {
        let q = ODataQuery {
            base_url: None,
            collection: None,
            key: None,
            filter: None,
            select: Vec::new(),
            order_by: Vec::new(),
            expand: Vec::new(),
            top: None,
            skip: None,
            count: None,
            search: None,
            format: None,
            custom: Vec::new(),
        };
        assert(q@.select =~= seq![]);
        assert(q@.custom =~= seq![]);
        q
    }

    /// Sets the base URL (e.g. `"https://api.example.com/odata"`).
    pub fn base_url(self, url: &str) -> (q: ODataQuery)
        ensures
            q@ == (QueryModel { base_url: Some(url@), ..self@ }),
    {
        let mut q = self;
        q.base_url = owned_opt(url);
        q
    }

    /// Sets the entity collection (e.g. `"Products"`).
    pub fn collection(self, name: &str) -> (q: ODataQuery)
        ensures
            q@ == (QueryModel { collection: Some(name@), ..self@ }),
    {
        let mut q = self;
        q.collection = owned_opt(name);
        q
    }

    /// Sets the entity key for single-entity queries (e.g. `"(42)"`).
    pub fn key(self, key: &str) -> (q: ODataQuery)
        ensures
            q@ == (QueryModel { key: Some(key@), ..self@ }),
    {
        let mut q = self;
        q.key = owned_opt(key);
        q
    }

    // ── Filter ─────────────────────────────────────────────────────

    /// Adds a filter expression; it is ANDed with any filter already set.
    pub fn filter_expr(self, new_expr: FilterExpr) -> (q: ODataQuery)
        ensures
            q@ == (QueryModel { filter: and_filter(self@.filter, new_expr), ..self@ }),
    {
        let mut q = self;
        let existing = q.filter.take();
        q.filter = and_filter_exec(existing, new_expr);
        q
    }

    /// Adds a filter. Multiple calls are ANDed together.
    pub fn filter<F: ODataFilter>(self, filter: F) -> (q: ODataQuery)
        ensures
            exists|added: FilterExpr|
                call_ensures(F::into_filter_expr, (filter,), added) && q@ == (QueryModel {
                    filter: and_filter(self@.filter, added),
                    ..self@
                }),
    {
        let new_expr = filter.into_filter_expr();
        self.filter_expr(new_expr)
    }

    // ── Select ─────────────────────────────────────────────────────

    /// Selects fields by string name, replacing any earlier selection.
    pub fn select(self, fields: &[&str]) -> (q: ODataQuery)
        ensures
            q@ == (QueryModel { select: str_views(fields@), ..self@ }),
    {
        let mut q = self;
        q.select = owned_strings(fields);
        q
    }

    /// Selects fields using typed `Field<T>` references, replacing any
    /// earlier selection: one name per field, in order.
    pub fn select_fields(self, fields: &[&dyn FieldRef]) -> (q: ODataQuery)
        ensures
            q@ == (QueryModel { select: field_name_views(fields@), ..self@ }),
    {
        let mut q = self;
        q.select = field_names(fields);
        q
    }

    // ── OrderBy ────────────────────────────────────────────────────

    /// Adds an order-by clause by string name, after those already there.
    pub fn order_by(self, field: &str, direction: Order) -> (q: ODataQuery)
        ensures
            q@ == (QueryModel { order_by: q@.order_by, ..self@ }),
            q@.order_by.len() == self@.order_by.len() + 1,
            q@.order_by.drop_last() == self@.order_by,
            q@.order_by.last().field@ == field@,
            q@.order_by.last().direction == direction,
    {
        let mut q = self;
        q.order_by.push(order_clause(field, direction));
        assert(q@.order_by.drop_last() =~= self@.order_by);
        q
    }

    /// Adds an order-by clause using a typed field, after those already
    /// there.
    pub fn order_by_field(self, field: &dyn FieldRef, direction: Order) -> (q: ODataQuery)
        ensures
            q@ == (QueryModel { order_by: q@.order_by, ..self@ }),
            q@.order_by.len() == self@.order_by.len() + 1,
            q@.order_by.drop_last() == self@.order_by,
            q@.order_by.last().field@ == field.name_view(),
            q@.order_by.last().direction == direction,
    {
        let mut q = self;
        q.order_by.push(order_clause(field.field_name(), direction));
        assert(q@.order_by.drop_last() =~= self@.order_by);
        q
    }

    // ── Expand ─────────────────────────────────────────────────────

    /// Adds an expand clause, after those already there.
    pub fn expand_clause(self, clause: ExpandClause) -> (q: ODataQuery)
        ensures
            q@ == (QueryModel { expand: self@.expand.push(clause), ..self@ }),
    {
        let mut q = self;
        q.expand.push(clause);
        q
    }

    /// Adds an expand clause, after those already there.
    pub fn expand<E: IntoExpand>(self, expand: E) -> (q: ODataQuery)
        ensures
            call_ensures(E::into_expand, (expand,), q@.expand.last()),
            q@ == (QueryModel { expand: q@.expand, ..self@ }),
            q@.expand.len() == self@.expand.len() + 1,
            q@.expand.drop_last() == self@.expand,
    {
        let clause = expand.into_expand();
        let q = self.expand_clause(clause);
        assert(q@.expand.drop_last() =~= self@.expand);
        q
    }

    // ── Paging ─────────────────────────────────────────────────────

    /// Sets `$top`.
    pub fn top(self, n: usize) -> (q: ODataQuery)
        ensures
            q@ == (QueryModel { top: Some(n), ..self@ }),
    {
        let mut q = self;
        q.top = Some(n);
        q
    }

    /// Sets `$skip`.
    pub fn skip(self, n: usize) -> (q: ODataQuery)
        ensures
            q@ == (QueryModel { skip: Some(n), ..self@ }),
    {
        let mut q = self;
        q.skip = Some(n);
        q
    }

    // ── Count ──────────────────────────────────────────────────────

    /// Sets `$count=true` or `$count=false`.
    pub fn count(self, enabled: bool) -> (q: ODataQuery)
        ensures
            q@ == (QueryModel { count: Some(enabled), ..self@ }),
    {
        let mut q = self;
        q.count = Some(enabled);
        q
    }

    // ── Search ─────────────────────────────────────────────────────

    /// Sets `$search`.
    pub fn search(self, term: &str) -> (q: ODataQuery)
        ensures
            q@ == (QueryModel { search: Some(term@), ..self@ }),
    {
        let mut q = self;
        q.search = owned_opt(term);
        q
    }

    // ── Format ─────────────────────────────────────────────────────

    /// Sets `$format` (e.g. `"json"`, `"xml"`).
    pub fn format(self, fmt: &str) -> (q: ODataQuery)
        ensures
            q@ == (QueryModel { format: Some(fmt@), ..self@ }),
    {
        let mut q = self;
        q.format = owned_opt(fmt);
        q
    }

    // ── Custom parameters ──────────────────────────────────────────

    /// Adds a custom query parameter (not prefixed with `$`), after those
    /// already there.
    pub fn custom(self, key: &str, value: &str) -> (q: ODataQuery)
        ensures
            q@ == (QueryModel { custom: self@.custom.push((key@, value@)), ..self@ }),
    {
        let mut q = self;
        q.custom.push((key.to_owned(), value.to_owned()));
        assert(q@.custom =~= self@.custom.push((key@, value@)));
        q
    }

    // ── Serialization ──────────────────────────────────────────────

    /// Appends the `$expand=...` parameter for the expand clauses.
    fn push_expand_part(&self, parts: &mut Vec<String>)
        requires
            self.expand@.len() > 0,
        ensures
            views(final(parts)@) == views(old(parts)@).push("$expand="@ + expand_list_text(self@.expand)),
    {
        let list = expand_list_string(&self.expand);
        push_option(parts, "$expand=", list.as_str());
    }

    /// Appends the custom parameters, `key=value` each.
    fn push_custom_parts(&self, parts: &mut Vec<String>)
        ensures
            views(final(parts)@) == views(old(parts)@) + custom_texts(self@.custom),
    {
        let ghost start = views(parts@);
        let ghost all = custom_texts(self@.custom);
        let mut i: usize = 0;
        while i < self.custom.len()
            invariant
                0 <= i <= self.custom@.len(),
                all == custom_texts(self@.custom),
                all.len() == self.custom@.len(),
                views(parts@) == start + all.take(i as int),
            decreases self.custom@.len() - i,
        {
            let pair = &self.custom[i];
            let mut text = String::new();
            text.append(pair.0.as_str());
            text.append("=");
            text.append(pair.1.as_str());
            let ghost before = parts@;
            parts.push(text);
            assert(views(parts@) =~= views(before).push(text@));
            assert(all[i as int] == custom_text((self.custom@[i as int].0@, self.custom@[i as int].1@)));
            i = i + 1;
            assert(views(parts@) =~= start + all.take(i as int));
        }
        assert(all.take(i as int) =~= all);
    }

    /// Appends the `$filter`, `$select`, `$orderby` and `$expand` parameters.
    fn push_shape_parts(&self, parts: &mut Vec<String>)
        ensures
            views(final(parts)@) == views(old(parts)@) + option_if(
                self@.filter is Some,
                "$filter="@ + filter_text(self@.filter->0),
            ) + option_if(self@.select.len() > 0, select_option(self@.select)) + option_if(
                self@.order_by.len() > 0,
                order_option(self@.order_by),
            ) + option_if(self@.expand.len() > 0, "$expand="@ + expand_list_text(self@.expand)),
    {
        let ghost q = self@;
        let ghost p0 = views(parts@);
        if let Some(filter) = &self.filter {
            let text = filter.to_filter_string();
            push_option(parts, "$filter=", text.as_str());
        }
        let ghost p1 = views(parts@);
        assert(p1 =~= p0 + option_if(q.filter is Some, "$filter="@ + filter_text(q.filter->0)));
        if self.select.len() > 0 {
            let names = join_strings(&self.select, ",");
            push_option(parts, "$select=", names.as_str());
        }
        let ghost p2 = views(parts@);
        assert(p2 =~= p1 + option_if(q.select.len() > 0, select_option(q.select)));
        if self.order_by.len() > 0 {
            let items = order_list(&self.order_by);
            push_option(parts, "$orderby=", items.as_str());
        }
        let ghost p3 = views(parts@);
        assert(p3 =~= p2 + option_if(q.order_by.len() > 0, order_option(q.order_by)));
        if self.expand.len() > 0 {
            self.push_expand_part(parts);
        }
        assert(views(parts@) =~= p3 + option_if(
            q.expand.len() > 0,
            "$expand="@ + expand_list_text(q.expand),
        ));
    }

    /// Appends the `$top`, `$skip`, `$count`, `$search` and `$format`
    /// parameters.
    fn push_paging_parts(&self, parts: &mut Vec<String>)
        ensures
            views(final(parts)@) == views(old(parts)@) + option_if(
                self@.top is Some,
                "$top="@ + decimal(self@.top->0 as nat),
            ) + option_if(self@.skip is Some, "$skip="@ + decimal(self@.skip->0 as nat)) + option_if(
                self@.count is Some,
                "$count="@ + bool_text(self@.count->0),
            ) + option_if(self@.search is Some, "$search="@ + self@.search->0) + option_if(
                self@.format is Some,
                "$format="@ + self@.format->0,
            ),
    {
        let ghost q = self@;
        let ghost p4 = views(parts@);
        if let Some(top) = self.top {
            let mut n = String::new();
            push_decimal(&mut n, top as u64);
            push_option(parts, "$top=", n.as_str());
        }
        let ghost p5 = views(parts@);
        assert(p5 =~= p4 + option_if(q.top is Some, "$top="@ + decimal(q.top->0 as nat)));
        if let Some(skip) = self.skip {
            let mut n = String::new();
            push_decimal(&mut n, skip as u64);
            push_option(parts, "$skip=", n.as_str());
        }
        let ghost p6 = views(parts@);
        assert(p6 =~= p5 + option_if(q.skip is Some, "$skip="@ + decimal(q.skip->0 as nat)));
        if let Some(count) = self.count {
            let mut b = String::new();
            push_bool(&mut b, count);
            push_option(parts, "$count=", b.as_str());
        }
        let ghost p7 = views(parts@);
        assert(p7 =~= p6 + option_if(q.count is Some, "$count="@ + bool_text(q.count->0)));
        if let Some(search) = &self.search {
            push_option(parts, "$search=", search.as_str());
        }
        let ghost p8 = views(parts@);
        assert(p8 =~= p7 + option_if(q.search is Some, "$search="@ + q.search->0));
        if let Some(format) = &self.format {
            push_option(parts, "$format=", format.as_str());
        }
        assert(views(parts@) =~= p8 + option_if(q.format is Some, "$format="@ + q.format->0));
    }

    /// Builds the query string (the `?...` part, without `?`).
    pub fn to_query_string(&self) -> (s: String)
        ensures
            s@ == query_text(self@),
    {
        let mut parts: Vec<String> = Vec::new();
        self.push_shape_parts(&mut parts);
        self.push_paging_parts(&mut parts);
        self.push_custom_parts(&mut parts);
        assert(views(parts@) =~= query_parts(self@));
        join_strings(&parts, "&")
    }

    /// Builds the full URL (base + collection + key + query string).
    ///
    /// Returns `None` if no base URL is set.
    pub fn to_url(&self) -> (u: Option<String>)
        ensures
            opt_view(u) == url_text(self@),
    {
        let base = match &self.base_url {
            Some(b) => b,
            None => {
                return None;
            },
        };
        let mut url = trim_end_char(base.as_str(), '/');
        let ghost after_base = url@;
        if let Some(coll) = &self.collection {
            push_char(&mut url, '/');
            url.append(coll.as_str());
        }
        let ghost after_coll = url@;
        if let Some(key) = &self.key {
            url.append(key.as_str());
        }
        let ghost after_key = url@;
        let qs = self.to_query_string();
        if qs.as_str().is_empty() == false {
            push_char(&mut url, '?');
            url.append(qs.as_str());
        }
        proof {
            reveal_strlit("/");
            reveal_strlit("?");
            let q = self@;
            assert(after_coll =~= after_base + (match q.collection {
                Some(c) => "/"@ + c,
                None => seq![],
            }));
            assert(after_key =~= after_coll + (match q.key {
                Some(k) => k,
                None => seq![],
            }));
            assert(url@ =~= url_text(q)->0);
        }
        Some(url)
    }

    /// The query as text: its full URL when it has a base URL, else its
    /// query string.
    pub fn to_string(&self) -> (s: String)
        ensures
            s@ == display_text(self@),
    {
        match self.to_url() {
            Some(url) => url,
            None => self.to_query_string(),
        }
    }
}

} // verus!
