use flodata::expand::{expand, ExpandClause, IntoExpand, Order};
use flodata::field::{col, Field};
use flodata::filter::{FilterCompose, FilterExpr, ODataFilter, RawFilter};
use flodata::value::{Decimal, ODataValue};
use flodata::ODataQuery;

// ── Entity field definitions ───────────────────────────────────────

fn num(x: f64) -> Decimal {
    Decimal::new(&x.to_string())
}

fn product_id() -> Field<i32> {
    Field::new("id")
}

fn product_name() -> Field<String> {
    Field::new("name")
}

fn product_price() -> Field<Decimal> {
    Field::new("price")
}

fn product_rating() -> Field<i32> {
    Field::new("rating")
}

fn product_is_active() -> Field<bool> {
    Field::new("isActive")
}

fn product_category() -> Field<String> {
    Field::new("category")
}

fn copernicus_name() -> Field<String> {
    Field::new("Name")
}

fn copernicus_content_date_start() -> Field<String> {
    Field::new("ContentDate/Start")
}

fn copernicus_content_date_end() -> Field<String> {
    Field::new("ContentDate/End")
}

fn copernicus_online() -> Field<bool> {
    Field::new("Online")
}

// ── Custom domain filters ──────────────────────────────────────────

struct ActiveProductFilter;

impl ODataFilter for ActiveProductFilter {
    fn into_filter_expr(self) -> FilterExpr {
        product_is_active().eq(true).into_filter_expr()
    }
}

struct PricedBetween(f64, f64);

impl ODataFilter for PricedBetween {
    fn into_filter_expr(self) -> FilterExpr {
        product_price()
            .ge(num(self.0))
            .and(product_price().le(num(self.1)))
            .into_filter_expr()
    }
}

struct HighRated(i32);

impl ODataFilter for HighRated {
    fn into_filter_expr(self) -> FilterExpr {
        product_rating().ge(self.0).into_filter_expr()
    }
}

// ── Tests ──────────────────────────────────────────────────────────

#[test]
fn simple_typed_query() {
    let qs = ODataQuery::new()
        .filter(product_price().gt(num(100.0)))
        .select_fields(&[&product_id(), &product_name(), &product_price()])
        .top(10)
        .to_query_string();

    assert_eq!(qs, "$filter=price gt 100.0&$select=id,name,price&$top=10");
}

#[test]
fn custom_filter_composable() {
    let qs = ODataQuery::new()
        .filter(ActiveProductFilter)
        .filter(PricedBetween(10.0, 99.99))
        .to_query_string();

    assert_eq!(
        qs,
        "$filter=(isActive eq true) and ((price ge 10.0) and (price le 99.99))"
    );
}

#[test]
fn compose_custom_with_typed_fields() {
    let f = ActiveProductFilter
        .and(PricedBetween(10.0, 50.0))
        .or(product_category().eq("Sale"));

    let qs = ODataQuery::new().filter(f).to_query_string();

    assert_eq!(
        qs,
        "$filter=((isActive eq true) and ((price ge 10.0) and (price le 50.0))) or (category eq 'Sale')"
    );
}

#[test]
fn negation() {
    let f = ActiveProductFilter.not();
    let qs = ODataQuery::new().filter(f).to_query_string();

    assert_eq!(qs, "$filter=not (isActive eq true)");
}

#[test]
fn three_custom_filters_composed() {
    let f = ActiveProductFilter
        .and(PricedBetween(10.0, 99.99))
        .and(HighRated(4));
    let qs = ODataQuery::new().filter(f).to_query_string();

    assert_eq!(
        qs,
        "$filter=((isActive eq true) and ((price ge 10.0) and (price le 99.99))) and (rating ge 4)"
    );
}

#[test]
fn untyped_col_alongside_typed_fields() {
    let qs = ODataQuery::new()
        .filter(product_price().gt(num(50.0)).and(col("legacyField").eq("yes")))
        .to_query_string();

    assert_eq!(qs, "$filter=(price gt 50.0) and (legacyField eq 'yes')");
}

#[test]
fn string_operations() {
    let qs = ODataQuery::new()
        .filter(
            product_name()
                .contains("bike")
                .and(product_category().starts_with("Sport")),
        )
        .to_query_string();

    assert_eq!(
        qs,
        "$filter=(contains(name, 'bike')) and (startswith(category, 'Sport'))"
    );
}

#[test]
fn null_checks() {
    let qs = ODataQuery::new()
        .filter(product_category().is_not_null())
        .to_query_string();

    assert_eq!(qs, "$filter=category ne null");
}

#[test]
fn in_list() {
    let qs = ODataQuery::new()
        .filter(product_category().in_list(vec![
            ODataValue::String("Electronics".into()),
            ODataValue::String("Books".into()),
            ODataValue::String("Sports".into()),
        ]))
        .to_query_string();

    assert_eq!(qs, "$filter=category in ('Electronics', 'Books', 'Sports')");
}

#[test]
fn datetime_filter() {
    let qs = ODataQuery::new()
        .filter(
            copernicus_content_date_start()
                .gt_value(ODataValue::datetime("2019-05-15T00:00:00.000")),
        )
        .to_query_string();

    assert_eq!(qs, "$filter=ContentDate/Start gt 2019-05-15T00:00:00.000Z");
}

#[test]
fn nested_expand_with_filter_and_select() {
    let qs = ODataQuery::new()
        .collection("Products")
        .expand(
            expand("Orders")
                .select_str(&["Id", "Amount", "Date"])
                .filter(col("Amount").gt(50))
                .order_by("Date", Order::Desc)
                .top(10),
        )
        .to_query_string();

    assert_eq!(
        qs,
        "$expand=Orders($select=Id,Amount,Date;$filter=Amount gt 50;$orderby=Date desc;$top=10)"
    );
}

#[test]
fn deeply_nested_expand() {
    let qs = ODataQuery::new()
        .expand(
            expand("Orders")
                .expand(expand("Items").select_str(&["ProductName", "Qty"]))
                .select_str(&["Id"]),
        )
        .to_query_string();

    assert_eq!(
        qs,
        "$expand=Orders($select=Id;$expand=Items($select=ProductName,Qty))"
    );
}

#[test]
fn multiple_expands() {
    let qs = ODataQuery::new()
        .expand("Supplier")
        .expand(expand("Category").select_str(&["Name"]))
        .to_query_string();

    assert_eq!(qs, "$expand=Supplier,Category($select=Name)");
}

#[test]
fn full_url_generation() {
    let url = ODataQuery::new()
        .base_url("https://api.example.com/odata")
        .collection("Products")
        .filter(product_is_active().eq(true))
        .select_fields(&[&product_name(), &product_price()])
        .order_by_field(&product_price(), Order::Desc)
        .top(20)
        .skip(40)
        .count(true)
        .to_url()
        .unwrap();

    assert_eq!(
        url,
        "https://api.example.com/odata/Products?$filter=isActive eq true&$select=name,price&$orderby=price desc&$top=20&$skip=40&$count=true"
    );
}

#[test]
fn entity_key_url() {
    let url = ODataQuery::new()
        .base_url("https://api.example.com/odata")
        .collection("Products")
        .key("(42)")
        .expand("Supplier")
        .to_url()
        .unwrap();

    assert_eq!(url, "https://api.example.com/odata/Products(42)?$expand=Supplier");
}

#[test]
fn raw_filter_escape_hatch() {
    let qs = ODataQuery::new()
        .filter(RawFilter::new(
            "Attributes/OData.CSC.StringAttribute/any(att:att/Name eq 'productType')",
        ))
        .to_query_string();

    assert_eq!(
        qs,
        "$filter=Attributes/OData.CSC.StringAttribute/any(att:att/Name eq 'productType')"
    );
}

#[test]
fn raw_filter_composed_with_typed() {
    let qs = ODataQuery::new()
        .filter(product_is_active().eq(true).and(RawFilter::new(
            "geo.distance(Location, geography'POINT(0 0)') lt 100",
        )))
        .to_query_string();

    assert_eq!(
        qs,
        "$filter=(isActive eq true) and (geo.distance(Location, geography'POINT(0 0)') lt 100)"
    );
}

#[test]
fn copernicus_real_world_query() {
    let qs = ODataQuery::new()
        .filter(
            copernicus_name()
                .contains("S2A")
                .and(
                    copernicus_content_date_start()
                        .gt_value(ODataValue::datetime("2019-05-15T00:00:00.000")),
                )
                .and(
                    copernicus_content_date_end()
                        .lt_value(ODataValue::datetime("2019-06-15T00:00:00.000")),
                )
                .and(copernicus_online().eq(true)),
        )
        .top(10)
        .to_query_string();

    assert!(qs.contains("contains(Name, 'S2A')"));
    assert!(qs.contains("ContentDate/Start gt 2019-05-15T00:00:00.000Z"));
    assert!(qs.contains("ContentDate/End lt 2019-06-15T00:00:00.000Z"));
    assert!(qs.contains("Online eq true"));
    assert!(qs.contains("$top=10"));
}

#[test]
fn search_and_format() {
    let qs = ODataQuery::new()
        .search("blue OR green")
        .format("json")
        .to_query_string();

    assert_eq!(qs, "$search=blue OR green&$format=json");
}

#[test]
fn custom_parameters() {
    let qs = ODataQuery::new()
        .filter(product_is_active().eq(true))
        .custom("apiVersion", "2.0")
        .custom("tenant", "acme")
        .to_query_string();

    assert_eq!(qs, "$filter=isActive eq true&apiVersion=2.0&tenant=acme");
}

#[test]
fn display_trait() {
    let query = ODataQuery::new()
        .base_url("https://api.example.com/odata")
        .collection("Products")
        .top(5);

    assert_eq!(query.to_string(), "https://api.example.com/odata/Products?$top=5");
}

#[test]
fn display_trait_no_url() {
    let query = ODataQuery::new().top(5);
    assert_eq!(query.to_string(), "$top=5");
}

// ── Custom IntoExpand example ──────────────────────────────────────

struct ProductWithTopOrders;

impl IntoExpand for ProductWithTopOrders {
    fn into_expand(self) -> ExpandClause {
        expand("Orders")
            .select_str(&["Id", "Amount"])
            .order_by("Amount", Order::Desc)
            .top(5)
    }
}

#[test]
fn custom_expand_pattern() {
    let qs = ODataQuery::new()
        .expand(ProductWithTopOrders)
        .to_query_string();

    assert_eq!(
        qs,
        "$expand=Orders($select=Id,Amount;$orderby=Amount desc;$top=5)"
    );
}
