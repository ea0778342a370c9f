use flodata::expand::{expand, Order};
use flodata::field::col;

#[test]
fn simple_expand() {
    let e = expand("Supplier");
    assert_eq!(e.to_expand_string(), "Supplier");
}

#[test]
fn expand_with_select() {
    let e = expand("Supplier").select_str(&["Name", "Country"]);
    assert_eq!(e.to_expand_string(), "Supplier($select=Name,Country)");
}

#[test]
fn expand_with_filter() {
    let e = expand("Orders").filter(col("Amount").gt(100));
    assert_eq!(e.to_expand_string(), "Orders($filter=Amount gt 100)");
}

#[test]
fn expand_with_multiple_options() {
    let e = expand("Orders")
        .select_str(&["Id", "Amount"])
        .filter(col("Amount").gt(100))
        .order_by("Amount", Order::Desc)
        .top(5);
    assert_eq!(
        e.to_expand_string(),
        "Orders($select=Id,Amount;$filter=Amount gt 100;$orderby=Amount desc;$top=5)"
    );
}

#[test]
fn nested_expand() {
    let inner = expand("Items").select_str(&["Name"]);
    let outer = expand("Orders").expand(inner);
    assert_eq!(outer.to_expand_string(), "Orders($expand=Items($select=Name))");
}
