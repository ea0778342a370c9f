use flodata::filter::{
    CompareOp, FilterCompose, FilterExpr, LogicalOp, ODataFilter, RawFilter, StringFunction,
};
use flodata::value::{Decimal, ODataValue};

fn float(x: f64) -> ODataValue {
    ODataValue::Float(Decimal::new(&x.to_string()))
}

#[test]
fn compare_serialization() {
    let expr = FilterExpr::Compare {
        field: "price".into(),
        op: CompareOp::Gt,
        value: float(100.0),
    };
    assert_eq!(expr.to_filter_string(), "price gt 100.0");
}

#[test]
fn logical_and() {
    let left = FilterExpr::Compare {
        field: "price".into(),
        op: CompareOp::Gt,
        value: float(10.0),
    };
    let right = FilterExpr::Compare {
        field: "price".into(),
        op: CompareOp::Lt,
        value: float(100.0),
    };
    let combined = FilterExpr::Logical {
        left: Box::new(left),
        op: LogicalOp::And,
        right: Box::new(right),
    };
    assert_eq!(
        combined.to_filter_string(),
        "(price gt 10.0) and (price lt 100.0)"
    );
}

#[test]
fn not_filter() {
    let expr = FilterExpr::Compare {
        field: "isActive".into(),
        op: CompareOp::Eq,
        value: ODataValue::Boolean(true),
    };
    let negated = FilterExpr::Not(Box::new(expr));
    assert_eq!(negated.to_filter_string(), "not (isActive eq true)");
}

#[test]
fn string_function() {
    let expr = FilterExpr::StringFunc {
        func: StringFunction::Contains,
        field: "name".into(),
        value: "bike".into(),
    };
    assert_eq!(expr.to_filter_string(), "contains(name, 'bike')");
}

#[test]
fn in_operator() {
    let expr = FilterExpr::In {
        field: "status".into(),
        values: vec![
            ODataValue::String("Active".into()),
            ODataValue::String("Pending".into()),
        ],
    };
    assert_eq!(expr.to_filter_string(), "status in ('Active', 'Pending')");
}

#[test]
fn raw_filter_passthrough() {
    let f = RawFilter::new("custom/path eq 'value'");
    assert_eq!(f.into_filter_expr().to_filter_string(), "custom/path eq 'value'");
}

#[test]
fn compose_trait_and() {
    let left = FilterExpr::Compare {
        field: "a".into(),
        op: CompareOp::Eq,
        value: ODataValue::Int(1),
    };
    let right = FilterExpr::Compare {
        field: "b".into(),
        op: CompareOp::Eq,
        value: ODataValue::Int(2),
    };
    let result = left.and(right);
    assert_eq!(result.to_filter_string(), "(a eq 1) and (b eq 2)");
}

struct ActiveFilter;

impl ODataFilter for ActiveFilter {
    fn into_filter_expr(self) -> FilterExpr {
        FilterExpr::Compare {
            field: "isActive".into(),
            op: CompareOp::Eq,
            value: ODataValue::Boolean(true),
        }
    }
}

#[test]
fn compose_custom_filter() {
    let result = ActiveFilter.and(FilterExpr::Compare {
        field: "price".into(),
        op: CompareOp::Gt,
        value: float(50.0),
    });
    assert_eq!(
        result.to_filter_string(),
        "(isActive eq true) and (price gt 50.0)"
    );
}
