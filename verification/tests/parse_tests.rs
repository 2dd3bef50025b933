use lunar_descent::parse::parse;

#[test]
fn parse_single_value() {
    let result = parse("123");
    assert_eq!("123".to_string(), result[0]);
    assert_eq!(1, result.len());
}

#[test]
fn parse_two_values() {
    let result = parse("123, 456");
    assert_eq!("123".to_string(), result[0]);
    assert_eq!("456".to_string(), result[1]);
    assert_eq!(2, result.len());
}

#[test]
fn parse_quoted_value() {
    let result = parse("123, \"456,789\", 10");
    assert_eq!("123".to_string(), result[0]);
    assert_eq!("456,789".to_string(), result[1]);
    assert_eq!("10".to_string(), result[2]);
    assert_eq!(3, result.len());
}

#[test]
fn parse_missing_closing_quote() {
    let result = parse("123, \"456,789, 10");
    assert_eq!("123".to_string(), result[0]);
    assert_eq!("456,789, 10".to_string(), result[1]);
    assert_eq!(2, result.len());
}

#[test]
fn parse_empty_line() {
    let result = parse("");
    assert_eq!(0, result.len());
}

#[test]
fn parse_trims_whitespace() {
    let result = parse("  12 ,\t34\t");
    assert_eq!("12".to_string(), result[0]);
    assert_eq!("34".to_string(), result[1]);
    assert_eq!(2, result.len());
}

#[test]
fn parse_all_whitespace_field() {
    let result = parse("a,   ");
    assert_eq!("a".to_string(), result[0]);
    assert_eq!("".to_string(), result[1]);
    assert_eq!(2, result.len());
}

#[test]
fn parse_trailing_comma_drops_empty_field() {
    let result = parse("a,");
    assert_eq!("a".to_string(), result[0]);
    assert_eq!(1, result.len());
}

#[test]
fn parse_quoted_field_keeps_later_commas() {
    let result = parse("\"a\", b, c");
    assert_eq!("a".to_string(), result[0]);
    assert_eq!("b, c".to_string(), result[1]);
    assert_eq!(2, result.len());
}

#[test]
fn parse_trims_unicode_whitespace() {
    let result = parse("\u{2003}x\u{00A0},\u{3000}y");
    assert_eq!("x".to_string(), result[0]);
    assert_eq!("y".to_string(), result[1]);
    assert_eq!(2, result.len());
}

#[test]
fn parse_quote_closed_without_comma_swallows_a_later_one() {
    let result = parse("\"a\" b, c");
    assert_eq!("a".to_string(), result[0]);
    assert_eq!("b c".to_string(), result[1]);
    assert_eq!(2, result.len());
}

#[test]
fn parse_text_before_quote_joins_field() {
    let result = parse("ab\"cd\"");
    assert_eq!("abcd".to_string(), result[0]);
    assert_eq!(1, result.len());
}
