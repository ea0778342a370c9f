use flodata::field::{col, Field};
use flodata::filter::{FilterCompose, ODataFilter};
use flodata::value::{Decimal, ODataValue};

fn num(x: f64) -> Decimal {
    Decimal::new(&x.to_string())
}

fn price() -> Field<Decimal> {
    Field::new("price")
}

fn name() -> Field<String> {
    Field::new("name")
}

fn active() -> Field<bool> {
    Field::new("isActive")
}

#[test]
fn typed_eq() {
    let f = price().eq(num(42.0));
    assert_eq!(f.into_filter_expr().to_filter_string(), "price eq 42.0");
}

#[test]
fn typed_gt() {
    let f = price().gt(num(100.0));
    assert_eq!(f.into_filter_expr().to_filter_string(), "price gt 100.0");
}

#[test]
fn string_contains() {
    let f = name().contains("bike");
    assert_eq!(
        f.into_filter_expr().to_filter_string(),
        "contains(name, 'bike')"
    );
}

#[test]
fn string_starts_with() {
    let f = name().starts_with("Pro");
    assert_eq!(
        f.into_filter_expr().to_filter_string(),
        "startswith(name, 'Pro')"
    );
}

#[test]
fn bool_eq() {
    let f = active().eq(true);
    assert_eq!(f.into_filter_expr().to_filter_string(), "isActive eq true");
}

#[test]
fn is_null() {
    let f = name().is_null();
    assert_eq!(f.into_filter_expr().to_filter_string(), "name eq null");
}

#[test]
fn compose_typed_fields() {
    let f = price().gt(num(10.0)).and(price().lt(num(100.0)));
    assert_eq!(
        f.to_filter_string(),
        "(price gt 10.0) and (price lt 100.0)"
    );
}

#[test]
fn untyped_col_works() {
    let f = col("status").eq("Active");
    assert_eq!(f.into_filter_expr().to_filter_string(), "status eq 'Active'");
}

#[test]
fn nested_field_path() {
    let start: Field<String> = Field::new("ContentDate/Start");
    let f = start.gt_value(ODataValue::datetime("2024-01-01T00:00:00.000"));
    assert_eq!(
        f.into_filter_expr().to_filter_string(),
        "ContentDate/Start gt 2024-01-01T00:00:00.000Z"
    );
}
