use flodata::expand::{expand, Order};
use flodata::field::{col, Field};
use flodata::filter::{FilterCompose, RawFilter};
use flodata::value::Decimal;
use flodata::ODataQuery;

fn num(x: f64) -> Decimal {
    Decimal::new(&x.to_string())
}

#[test]
fn empty_query() {
    let qs = ODataQuery::new().to_query_string();
    assert_eq!(qs, "");
}

#[test]
fn filter_only() {
    let qs = ODataQuery::new()
        .filter(col("price").gt(100))
        .to_query_string();
    assert_eq!(qs, "$filter=price gt 100");
}

#[test]
fn multiple_filters_and() {
    let qs = ODataQuery::new()
        .filter(col("price").gt(100))
        .filter(col("active").eq(true))
        .to_query_string();
    assert_eq!(qs, "$filter=(price gt 100) and (active eq true)");
}

#[test]
fn select_and_top() {
    let qs = ODataQuery::new()
        .select(&["id", "name"])
        .top(5)
        .to_query_string();
    assert_eq!(qs, "$select=id,name&$top=5");
}

#[test]
fn order_by_multiple() {
    let qs = ODataQuery::new()
        .order_by("name", Order::Asc)
        .order_by("price", Order::Desc)
        .to_query_string();
    assert_eq!(qs, "$orderby=name,price desc");
}

#[test]
fn expand_simple() {
    let qs = ODataQuery::new().expand("Supplier").to_query_string();
    assert_eq!(qs, "$expand=Supplier");
}

#[test]
fn expand_with_options() {
    let qs = ODataQuery::new()
        .expand(expand("Orders").select_str(&["Id", "Amount"]).top(5))
        .to_query_string();
    assert_eq!(qs, "$expand=Orders($select=Id,Amount;$top=5)");
}

#[test]
fn full_url() {
    let url = ODataQuery::new()
        .base_url("https://api.example.com/odata")
        .collection("Products")
        .filter(col("price").gt(100))
        .top(10)
        .to_url()
        .unwrap();
    assert_eq!(
        url,
        "https://api.example.com/odata/Products?$filter=price gt 100&$top=10"
    );
}

#[test]
fn full_url_with_key() {
    let url = ODataQuery::new()
        .base_url("https://api.example.com/odata")
        .collection("Products")
        .key("(42)")
        .to_url()
        .unwrap();
    assert_eq!(url, "https://api.example.com/odata/Products(42)");
}

#[test]
fn count_and_search() {
    let qs = ODataQuery::new().count(true).search("bike").to_query_string();
    assert_eq!(qs, "$count=true&$search=bike");
}

#[test]
fn custom_parameter() {
    let qs = ODataQuery::new()
        .custom("apiVersion", "2.0")
        .to_query_string();
    assert_eq!(qs, "apiVersion=2.0");
}

#[test]
fn raw_filter_in_query() {
    let qs = ODataQuery::new()
        .filter(RawFilter::new(
            "Attributes/OData.CSC.StringAttribute/any(att:att/Name eq 'productType')",
        ))
        .to_query_string();
    assert_eq!(
        qs,
        "$filter=Attributes/OData.CSC.StringAttribute/any(att:att/Name eq 'productType')"
    );
}

#[test]
fn typed_fields_in_query() {
    let price: Field<Decimal> = Field::new("price");
    let name: Field<String> = Field::new("name");

    let qs = ODataQuery::new()
        .filter(price.gt(num(100.0)).and(name.contains("bike")))
        .select_fields(&[&name, &price])
        .order_by_field(&price, Order::Desc)
        .top(5)
        .to_query_string();

    assert_eq!(
        qs,
        "$filter=(price gt 100.0) and (contains(name, 'bike'))&$select=name,price&$orderby=price desc&$top=5"
    );
}
