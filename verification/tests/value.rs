use flodata::value::{Decimal, IntoODataValue, ODataValue};

fn num(x: f64) -> Decimal {
    Decimal::new(&x.to_string())
}

#[test]
fn string_value_single_quotes() {
    let v = "hello".into_odata_value();
    assert_eq!(v.to_odata_string(), "'hello'");
}

#[test]
fn string_value_escapes_quotes() {
    let v = "it's".into_odata_value();
    assert_eq!(v.to_odata_string(), "'it''s'");
}

#[test]
fn datetime_appends_z() {
    let v = ODataValue::datetime("2024-01-15T00:00:00.000");
    assert_eq!(v.to_odata_string(), "2024-01-15T00:00:00.000Z");
}

#[test]
fn datetime_preserves_z() {
    let v = ODataValue::datetime("2024-01-15T00:00:00.000Z");
    assert_eq!(v.to_odata_string(), "2024-01-15T00:00:00.000Z");
}

#[test]
fn float_always_has_decimal() {
    let v = num(100.0_f64).into_odata_value();
    assert!(v.to_odata_string().contains('.'));
}

#[test]
fn bool_lowercase() {
    assert_eq!(true.into_odata_value().to_odata_string(), "true");
    assert_eq!(false.into_odata_value().to_odata_string(), "false");
}
