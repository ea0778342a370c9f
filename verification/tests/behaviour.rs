use flodata::expand::{expand, ExpandClause, IntoExpand, Order, OrderByClause};
use flodata::field::{col, Field, FieldRef};
use flodata::filter::{
    CompareOp, FilterCompose, FilterExpr, LogicalOp, ODataFilter, RawFilter, StringFunction,
};
use flodata::value::{Decimal, IntoODataValue, ODataValue};
use flodata::ODataQuery;

fn dec(text: &str) -> Decimal {
    Decimal::new(text)
}

// ── Values ─────────────────────────────────────────────────────────

#[test]
fn int_literals_in_decimal() {
    assert_eq!(ODataValue::Int(0).to_odata_string(), "0");
    assert_eq!(ODataValue::Int(7).to_odata_string(), "7");
    assert_eq!(ODataValue::Int(-42).to_odata_string(), "-42");
    assert_eq!(ODataValue::Int(1234567890).to_odata_string(), "1234567890");
    assert_eq!(
        ODataValue::Int(i64::MAX).to_odata_string(),
        "9223372036854775807"
    );
    assert_eq!(
        ODataValue::Int(i64::MIN).to_odata_string(),
        "-9223372036854775808"
    );
    assert_eq!(7i32.into_odata_value().to_odata_string(), "7");
    assert_eq!((-3i64).into_odata_value().to_odata_string(), "-3");
}

#[test]
fn string_literal_quote_runs() {
    assert_eq!(ODataValue::String(String::new()).to_odata_string(), "''");
    assert_eq!(ODataValue::String("'".into()).to_odata_string(), "''''");
    assert_eq!(
        ODataValue::String("a''b'".into()).to_odata_string(),
        "'a''''b'''"
    );
    assert_eq!(ODataValue::String("héllo".into()).to_odata_string(), "'héllo'");
    assert_eq!(String::from("x").into_odata_value().to_odata_string(), "'x'");
}

#[test]
fn float_literal_forms() {
    assert_eq!(ODataValue::Float(dec("100")).to_odata_string(), "100.0");
    assert_eq!(ODataValue::Float(dec("99.99")).to_odata_string(), "99.99");
    assert_eq!(ODataValue::Float(dec("-0.5")).to_odata_string(), "-0.5");
    assert_eq!(
        ODataValue::Float(Decimal::new(&f64::NAN.to_string())).to_odata_string(),
        "NaN"
    );
    assert_eq!(
        ODataValue::Float(Decimal::new(&f64::INFINITY.to_string())).to_odata_string(),
        "INF"
    );
    assert_eq!(
        ODataValue::Float(Decimal::new(&f64::NEG_INFINITY.to_string())).to_odata_string(),
        "-INF"
    );
    assert_eq!(ODataValue::Float(dec("Inf")).to_odata_string(), "Inf.0");
    assert_eq!(dec("3").into_odata_value().to_odata_string(), "3.0");
}

#[test]
fn datetime_forms() {
    assert_eq!(ODataValue::datetime("2024-01-15T00:00:00z").to_odata_string(), "2024-01-15T00:00:00z");
    assert_eq!(ODataValue::datetime("").to_odata_string(), "Z");
    assert_eq!(ODataValue::datetime("hello").to_odata_string(), "helloZ");
    assert_eq!(
        ODataValue::datetime("2024-01-15T09:30:00.000+02:00").to_odata_string(),
        "2024-01-15T09:30:00.000+02:00Z"
    );
}

#[test]
fn datetime_twice_is_once() {
    let once = ODataValue::datetime("2024-01-15T09:30:00.000").to_odata_string();
    let twice = ODataValue::datetime(&once).to_odata_string();
    assert_eq!(once, twice);
    assert_eq!(once, "2024-01-15T09:30:00.000Z");
}

#[test]
fn bare_literals() {
    assert_eq!(ODataValue::date("2024-01-15").to_odata_string(), "2024-01-15");
    assert_eq!(ODataValue::time_of_day("09:30:00").to_odata_string(), "09:30:00");
    assert_eq!(
        ODataValue::guid("01234567-89ab-cdef-0123-456789abcdef").to_odata_string(),
        "01234567-89ab-cdef-0123-456789abcdef"
    );
    assert_eq!(ODataValue::Null.to_odata_string(), "null");
    assert_eq!(ODataValue::Null.into_odata_value().to_odata_string(), "null");
}

#[test]
fn value_clone_keeps_literal() {
    let v = ODataValue::String("it's".into());
    assert_eq!(v.clone(), v);
    assert_eq!(v.clone().to_odata_string(), "'it''s'");
}

// ── Filters ────────────────────────────────────────────────────────

#[test]
fn operator_keywords() {
    assert_eq!(CompareOp::Eq.as_str(), "eq");
    assert_eq!(CompareOp::Ne.as_str(), "ne");
    assert_eq!(CompareOp::Gt.as_str(), "gt");
    assert_eq!(CompareOp::Ge.as_str(), "ge");
    assert_eq!(CompareOp::Lt.as_str(), "lt");
    assert_eq!(CompareOp::Le.as_str(), "le");
    assert_eq!(LogicalOp::And.as_str(), "and");
    assert_eq!(LogicalOp::Or.as_str(), "or");
    assert_eq!(StringFunction::Contains.as_str(), "contains");
    assert_eq!(StringFunction::StartsWith.as_str(), "startswith");
    assert_eq!(StringFunction::EndsWith.as_str(), "endswith");
}

#[test]
fn string_function_escapes_value() {
    let f = col("name").ends_with("O'Brien");
    assert_eq!(
        f.into_filter_expr().to_filter_string(),
        "endswith(name, 'O''Brien')"
    );
}

#[test]
fn empty_in_list() {
    let f = col("status").in_list(vec![]);
    assert_eq!(f.into_filter_expr().to_filter_string(), "status in ()");
}

#[test]
fn in_list_mixed_values() {
    let f = col("v").in_list(vec![
        ODataValue::Int(1),
        ODataValue::Null,
        ODataValue::Boolean(false),
        ODataValue::Float(dec("2.5")),
    ]);
    assert_eq!(
        f.into_filter_expr().to_filter_string(),
        "v in (1, null, false, 2.5)"
    );
}

#[test]
fn untyped_operators() {
    let s = |f: flodata::field::FieldFilter| f.into_filter_expr().to_filter_string();
    assert_eq!(s(col("a").ne(1)), "a ne 1");
    assert_eq!(s(col("a").ge(2)), "a ge 2");
    assert_eq!(s(col("a").lt(3)), "a lt 3");
    assert_eq!(s(col("a").le(4)), "a le 4");
    assert_eq!(s(col("a").starts_with("x")), "startswith(a, 'x')");
    assert_eq!(s(col("a").is_null()), "a eq null");
    assert_eq!(s(col("a").is_not_null()), "a ne null");
    assert_eq!(s(col("a").compare(CompareOp::Ge, ODataValue::Int(9))), "a ge 9");
}

#[test]
fn typed_operators() {
    let rating: Field<i32> = Field::new("rating");
    let name: Field<String> = Field::new("name");
    let s = |f: flodata::field::FieldFilter| f.into_filter_expr().to_filter_string();
    assert_eq!(s(rating.ne(3)), "rating ne 3");
    assert_eq!(s(rating.lt(3)), "rating lt 3");
    assert_eq!(s(rating.le(3)), "rating le 3");
    assert_eq!(s(rating.eq_value(ODataValue::Null)), "rating eq null");
    assert_eq!(
        s(rating.lt_value(ODataValue::Int(10))),
        "rating lt 10"
    );
    assert_eq!(s(name.ends_with("z")), "endswith(name, 'z')");
    assert_eq!(s(name.is_not_null()), "name ne null");
    assert_eq!(s(name.gt("m")), "name gt 'm'");
    assert_eq!(
        s(rating.in_list(vec![ODataValue::Int(4), ODataValue::Int(5)])),
        "rating in (4, 5)"
    );
    assert_eq!(name.field_name(), "name");
    assert_eq!(col("x").field_name(), "x");
}

#[test]
fn or_and_not_nest() {
    let f = col("a").eq(1).or(col("b").eq(2)).not();
    assert_eq!(f.to_filter_string(), "not ((a eq 1) or (b eq 2))");
    assert_eq!(f.to_string(), "not ((a eq 1) or (b eq 2))");
}

#[test]
fn combine_builds_logical_node() {
    let e = FilterExpr::combine(
        FilterExpr::Raw("x".into()),
        LogicalOp::Or,
        FilterExpr::Raw("y".into()),
    );
    assert_eq!(e.to_filter_string(), "(x) or (y)");
    let copy = e.clone();
    assert_eq!(copy, e);
}

#[test]
fn raw_filter_in_logic() {
    let f = RawFilter::new("a").and(RawFilter::new("b"));
    assert_eq!(f.to_filter_string(), "(a) and (b)");
}

// ── Expand ─────────────────────────────────────────────────────────

#[test]
fn order_fragments() {
    let asc = OrderByClause { field: "name".into(), direction: Order::Asc };
    let desc = OrderByClause { field: "name".into(), direction: Order::Desc };
    assert_eq!(asc.to_string_fragment(), "name");
    assert_eq!(desc.to_string_fragment(), "name desc");
}

#[test]
fn expand_all_options_in_order() {
    let amount: Field<i32> = Field::new("Amount");
    let e = ExpandClause::new("Orders")
        .expand(expand("Items"))
        .skip(3)
        .top(2)
        .order_by_field(&amount, Order::Asc)
        .filter(amount.gt(1))
        .filter(amount.lt(9))
        .select_fields(&[&amount]);
    assert_eq!(
        e.to_expand_string(),
        "Orders($select=Amount;$filter=(Amount gt 1) and (Amount lt 9);$orderby=Amount;$top=2;$skip=3;$expand=Items)"
    );
    let copy = e.clone();
    assert_eq!(copy.to_expand_string(), e.to_expand_string());
}

#[test]
fn expand_select_replaces() {
    let e = expand("Orders").select_str(&["A"]).select_str(&["B", "C"]);
    assert_eq!(e.to_expand_string(), "Orders($select=B,C)");
}

#[test]
fn into_expand_from_strings() {
    assert_eq!("Supplier".into_expand().to_expand_string(), "Supplier");
    assert_eq!(String::from("Items").into_expand().to_expand_string(), "Items");
    let qs = ODataQuery::new()
        .expand(String::from("Items"))
        .expand_clause(expand("More"))
        .to_query_string();
    assert_eq!(qs, "$expand=Items,More");
}

// ── Query ──────────────────────────────────────────────────────────

#[test]
fn query_option_order_is_fixed() {
    let qs = ODataQuery::new()
        .custom("k", "v")
        .format("json")
        .search("s")
        .count(false)
        .skip(1)
        .top(2)
        .expand("E")
        .order_by("o", Order::Desc)
        .select(&["a"])
        .filter(col("f").eq(1))
        .to_query_string();
    assert_eq!(
        qs,
        "$filter=f eq 1&$select=a&$orderby=o desc&$expand=E&$top=2&$skip=1&$count=false&$search=s&$format=json&k=v"
    );
}

#[test]
fn setting_again_replaces() {
    let qs = ODataQuery::new()
        .top(1)
        .top(2)
        .skip(3)
        .skip(4)
        .select(&["a"])
        .select(&["b"])
        .search("x")
        .search("y")
        .to_query_string();
    assert_eq!(qs, "$select=b&$top=2&$skip=4&$search=y");
}

#[test]
fn url_without_base_is_none() {
    assert!(ODataQuery::new().collection("Products").top(1).to_url().is_none());
    assert_eq!(ODataQuery::new().top(1).to_string(), "$top=1");
}

#[test]
fn url_drops_trailing_slashes() {
    let url = ODataQuery::new()
        .base_url("https://api.example.com/odata///")
        .collection("Products")
        .to_url()
        .unwrap();
    assert_eq!(url, "https://api.example.com/odata/Products");
    let bare = ODataQuery::new().base_url("https://h/").to_url().unwrap();
    assert_eq!(bare, "https://h");
}

#[test]
fn url_with_key_only() {
    let url = ODataQuery::new()
        .base_url("https://h")
        .key("(7)")
        .to_url()
        .unwrap();
    assert_eq!(url, "https://h(7)");
}

#[test]
fn default_is_empty_and_clone_keeps_text() {
    assert_eq!(ODataQuery::default().to_query_string(), "");
    let q = ODataQuery::new()
        .base_url("https://h")
        .filter(col("a").eq(1))
        .expand(expand("E").top(1))
        .custom("k", "v");
    let copy = q.clone();
    assert_eq!(copy.to_url(), q.to_url());
    assert_eq!(q.to_url().unwrap(), "https://h?$filter=a eq 1&$expand=E($top=1)&k=v");
}

#[test]
fn large_paging_numbers() {
    let qs = ODataQuery::new().top(usize::MAX).skip(0).to_query_string();
    assert_eq!(qs, format!("$top={}&$skip=0", usize::MAX));
}

#[test]
fn filter_expr_ands_like_filter() {
    let a = ODataQuery::new()
        .filter_expr(FilterExpr::Raw("x".into()))
        .filter_expr(FilterExpr::Raw("y".into()))
        .to_query_string();
    assert_eq!(a, "$filter=(x) and (y)");
}

#[test]
fn float_values_compare_as_floats() {
    let nan = || ODataValue::Float(Decimal::new(&f64::NAN.to_string()));
    assert!(nan() != nan());
    assert_eq!(
        ODataValue::Float(Decimal::new(&0.0_f64.to_string())),
        ODataValue::Float(Decimal::new(&(-0.0_f64).to_string()))
    );
    assert_eq!(dec("1.5"), dec("1.5"));
    assert!(dec("1.5") != dec("2.5"));
    assert_eq!(ODataValue::Float(dec("3")), ODataValue::Float(dec("3")));
}

struct Path(&'static str);

impl FieldRef for Path {
    fn field_name(&self) -> &str {
        self.0
    }
}

#[test]
fn own_field_ref_names_select_and_orderby() {
    let p = Path("Address/City");
    let qs = ODataQuery::new()
        .select_fields(&[&p, &col("id")])
        .order_by_field(&p, Order::Desc)
        .to_query_string();
    assert_eq!(qs, "$select=Address/City,id&$orderby=Address/City desc");
}
