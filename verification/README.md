# flodata

A composable OData v4 query builder, verified with Verus.

- `src/value.rs`: OData literals (`ODataValue`) and the conversion traits.
- `src/filter.rs`: the `$filter` expression tree, its text, `and`/`or`/`not`.
- `src/field.rs`: typed (`Field<T>`) and untyped (`col`) fields.
- `src/expand.rs`: `$expand` clauses with nested options, `$orderby` items.
- `src/builder.rs`: `ODataQuery`, its query string and URL.
- `src/text.rs`: decimal digits, quote escaping, joining, trimming.
- `src/laws.rs`: properties of the library as a whole.
- `app/lib.rs`: float-to-text and `Display` glue.

Floating-point numbers are carried as the decimal text that Rust's
`Display` writes for them (`Decimal`), since the verified code holds no
floats: `Decimal::new(&100.0_f64.to_string())` renders as `100.0`, and the
values that are not finite render as OData's `NaN`, `INF` and `-INF`.
`ODataQuery::to_string` and `FilterExpr::to_string` give the text that
`Display` would show.
