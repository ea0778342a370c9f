use flodata::expand::{expand, ExpandClause, IntoExpand, Order};
use flodata::field::{col, Field};
use flodata::filter::{FilterCompose, FilterExpr, ODataFilter};
use flodata::value::{Decimal, ODataValue};
use flodata::ODataQuery;

fn num(x: f64) -> Decimal {
    Decimal::new(&x.to_string())
}

fn price() -> Field<Decimal> {
    Field::new("price")
}

fn name() -> Field<String> {
    Field::new("name")
}

fn active() -> Field<bool> {
    Field::new("isActive")
}

fn rating() -> Field<i32> {
    Field::new("rating")
}

struct ActiveProducts;

impl ODataFilter for ActiveProducts {
    fn into_filter_expr(self) -> FilterExpr {
        active().eq(true).into_filter_expr()
    }
}

struct PricedBetween(f64, f64);

impl ODataFilter for PricedBetween {
    fn into_filter_expr(self) -> FilterExpr {
        price()
            .ge(num(self.0))
            .and(price().le(num(self.1)))
            .into_filter_expr()
    }
}

#[test]
fn readme_build_queries() {
    let query = ODataQuery::new()
        .base_url("https://api.example.com/odata")
        .collection("Products")
        .filter(ActiveProducts)
        .filter(PricedBetween(10.0, 99.99))
        .select_fields(&[&name(), &price()])
        .order_by_field(&price(), Order::Desc)
        .top(20)
        .skip(40)
        .count(true);
    assert_eq!(
        query.to_query_string(),
        "$filter=(isActive eq true) and ((price ge 10.0) and (price le 99.99))&$select=name,price&$orderby=price desc&$top=20&$skip=40&$count=true"
    );
    assert_eq!(
        query.to_url().unwrap(),
        "https://api.example.com/odata/Products?$filter=(isActive eq true) and ((price ge 10.0) and (price le 99.99))&$select=name,price&$orderby=price desc&$top=20&$skip=40&$count=true"
    );
}

#[test]
fn readme_expand_with_nested_queries() {
    let qs = ODataQuery::new()
        .collection("Products")
        .expand(
            expand("Orders")
                .select_str(&["Id", "Amount", "Date"])
                .filter(col("Amount").gt(50))
                .order_by("Date", Order::Desc)
                .top(10),
        )
        .expand(expand("Supplier").select_str(&["Name", "Country"]))
        .to_query_string();
    assert_eq!(
        qs,
        "$expand=Orders($select=Id,Amount,Date;$filter=Amount gt 50;$orderby=Date desc;$top=10),Supplier($select=Name,Country)"
    );
}

struct ProductWithTopOrders;

impl IntoExpand for ProductWithTopOrders {
    fn into_expand(self) -> ExpandClause {
        expand("Orders")
            .select_str(&["Id", "Amount"])
            .order_by("Amount", Order::Desc)
            .top(5)
    }
}

#[test]
fn readme_reusable_expand() {
    let qs = ODataQuery::new().expand(ProductWithTopOrders).to_query_string();
    assert_eq!(qs, "$expand=Orders($select=Id,Amount;$orderby=Amount desc;$top=5)");
}

#[test]
fn readme_special_values() {
    let start: Field<String> = Field::new("ContentDate/Start");
    let f = start.gt_value(ODataValue::datetime("2019-05-15T00:00:00.000"));
    assert_eq!(
        f.into_filter_expr().to_filter_string(),
        "ContentDate/Start gt 2019-05-15T00:00:00.000Z"
    );
    let product_id: Field<String> = Field::new("ProductId");
    let g = product_id.eq_value(ODataValue::guid("01234567-89ab-cdef-0123-456789abcdef"));
    assert_eq!(
        g.into_filter_expr().to_filter_string(),
        "ProductId eq 01234567-89ab-cdef-0123-456789abcdef"
    );
    assert_eq!(name().is_null().into_filter_expr().to_filter_string(), "name eq null");
    let r = rating().in_list(vec![ODataValue::Int(4), ODataValue::Int(5)]);
    assert_eq!(r.into_filter_expr().to_filter_string(), "rating in (4, 5)");
}

#[test]
fn readme_composed_domain_filters() {
    let f = ActiveProducts
        .and(PricedBetween(10.0, 99.99))
        .or(rating().ge(5));
    assert_eq!(
        f.to_filter_string(),
        "((isActive eq true) and ((price ge 10.0) and (price le 99.99))) or (rating ge 5)"
    );
    let neg = active().eq(false).not();
    assert_eq!(neg.to_filter_string(), "not (isActive eq false)");
}
