use fairos::{compile, BlockSize, Expr, ExprError, ExprValue};

fn s(x: &str) -> String {
    x.to_string()
}

#[test]
fn compile_gt_number() {
    let e = Expr::Gt(s("n"), ExprValue::Number(9));
    assert_eq!(compile(&e).unwrap(), "n%3e9");
}

#[test]
fn compile_eq_string_is_quoted() {
    let e = Expr::Eq(s("s"), ExprValue::Str(s("a")));
    assert_eq!(compile(&e).unwrap(), "s=%22a%22");
}

#[test]
fn compile_eq_number() {
    let e = Expr::Eq(s("n"), ExprValue::Number(12));
    assert_eq!(compile(&e).unwrap(), "n=12");
}

#[test]
fn compile_gte_number() {
    let e = Expr::Gte(s("age"), ExprValue::Number(0));
    assert_eq!(compile(&e).unwrap(), "age%3e=0");
}

#[test]
fn compile_gt_string() {
    let e = Expr::Gt(s("name"), ExprValue::Str(s("bob")));
    assert_eq!(compile(&e).unwrap(), "name%3e%22bob%22");
}

#[test]
fn compile_lt_swaps_operands() {
    let e = Expr::Lt(s("n"), ExprValue::Number(9));
    assert_eq!(compile(&e).unwrap(), "9%3en");
    let g = Expr::Gt(s("n"), ExprValue::Number(9));
    assert_ne!(compile(&e).unwrap(), compile(&g).unwrap());
}

#[test]
fn compile_lte_swaps_operands() {
    let e = Expr::Lte(s("n"), ExprValue::Number(4294967295));
    assert_eq!(compile(&e).unwrap(), "4294967295%3e=n");
    let e = Expr::Lte(s("s"), ExprValue::Str(s("x")));
    assert_eq!(compile(&e).unwrap(), "%22x%22%3e=s");
}

#[test]
fn compile_all_is_empty() {
    assert_eq!(compile(&Expr::All).unwrap(), "");
}

#[test]
fn compile_and_or_unsupported() {
    let a = Expr::And(Box::new(Expr::All), Box::new(Expr::All));
    assert_eq!(compile(&a).unwrap_err(), ExprError::Unsupported);
    let o = Expr::Or(
        Box::new(Expr::Eq(s("a"), ExprValue::Number(1))),
        Box::new(Expr::All),
    );
    assert_eq!(compile(&o).unwrap_err(), ExprError::Unsupported);
}

#[test]
fn compile_object_value_unsupported() {
    let e = Expr::Eq(s("m"), ExprValue::Object(vec![(s("k"), s("v"))]));
    assert_eq!(compile(&e).unwrap_err(), ExprError::Unsupported);
    let e = Expr::Lt(s("m"), ExprValue::Object(Vec::new()));
    assert_eq!(compile(&e).unwrap_err(), ExprError::Unsupported);
}

#[test]
fn document_query_scenario_filters() {
    // The two filters of the document-query scenario, as sent to the service.
    let gt = Expr::Gt(s("n"), ExprValue::Number(9));
    let eq = Expr::Eq(s("s"), ExprValue::Str(s("a")));
    assert_eq!(compile(&gt).unwrap(), "n%3e9");
    assert_eq!(compile(&eq).unwrap(), "s=%22a%22");
}

#[test]
fn block_size_format() {
    assert_eq!(BlockSize::Bytes(1000).format(), "1000");
    assert_eq!(BlockSize::Kilobytes(1).format(), "1K");
    assert_eq!(BlockSize::Megabytes(64).format(), "64M");
    assert_eq!(BlockSize::Gigabytes(2).format(), "2G");
    assert_eq!(BlockSize::Terabytes(0).format(), "0T");
}

#[test]
fn block_size_round_trip() {
    let all = [
        BlockSize::Bytes(0),
        BlockSize::Bytes(u32::MAX),
        BlockSize::Kilobytes(1),
        BlockSize::Megabytes(1500),
        BlockSize::Gigabytes(7),
        BlockSize::Terabytes(u32::MAX),
    ];
    for b in all.iter() {
        assert_eq!(BlockSize::parse(&b.format()), Some(*b));
    }
}

#[test]
fn block_size_parse_values() {
    assert_eq!(BlockSize::parse("1K"), Some(BlockSize::Kilobytes(1)));
    assert_eq!(BlockSize::parse("007M"), Some(BlockSize::Megabytes(7)));
    assert_eq!(BlockSize::parse("4294967295"), Some(BlockSize::Bytes(u32::MAX)));
}

#[test]
fn block_size_parse_rejects() {
    assert_eq!(BlockSize::parse(""), None);
    assert_eq!(BlockSize::parse("K"), None);
    assert_eq!(BlockSize::parse("12X"), None);
    assert_eq!(BlockSize::parse("1KK"), None);
    assert_eq!(BlockSize::parse("-1"), None);
    assert_eq!(BlockSize::parse("4294967296"), None);
    assert_eq!(BlockSize::parse("1k"), None);
}

#[test]
fn block_size_conversions_truncate() {
    assert_eq!(BlockSize::Bytes(1500).to_kilobytes(), BlockSize::Kilobytes(1));
    assert_eq!(BlockSize::Bytes(999).to_kilobytes(), BlockSize::Kilobytes(0));
    assert_eq!(BlockSize::Kilobytes(1).to_bytes(), BlockSize::Bytes(1000));
    assert_eq!(BlockSize::Megabytes(2500).to_gigabytes(), BlockSize::Gigabytes(2));
    assert_eq!(BlockSize::Terabytes(3).to_megabytes(), BlockSize::Megabytes(3_000_000));
    assert_eq!(BlockSize::Gigabytes(1).to_terabytes(), BlockSize::Terabytes(0));
    assert_eq!(BlockSize::Terabytes(u32::MAX).byte_count(), 4_294_967_295_000_000_000_000u128);
}
