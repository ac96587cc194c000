use jsgen::module::block::Statement;

fn literal(value: &str) -> Statement {
    Statement::Literal { value: value.to_string() }
}

#[test]
fn text_becomes_a_quoted_literal() {
    assert_eq!(Statement::from("foo"), literal("'foo'"));
    assert_eq!(Statement::from("foo".to_string()), literal("'foo'"));
    assert_eq!(Statement::from(""), literal("''"));
}

#[test]
fn text_is_not_escaped() {
    assert_eq!(Statement::from("it's"), literal("'it's'"));
    assert_eq!(Statement::from("a\\b\n".to_string()), literal("'a\\b\n'"));
}

#[test]
fn text_keeps_characters_outside_ascii() {
    assert_eq!(Statement::from("héllo ✓"), literal("'héllo ✓'"));
}

#[test]
fn integer_becomes_its_decimal_form() {
    assert_eq!(Statement::from(42), literal("42"));
    assert_eq!(Statement::from(0), literal("0"));
    assert_eq!(Statement::from(7), literal("7"));
    assert_eq!(Statement::from(10), literal("10"));
    assert_eq!(Statement::from(1000), literal("1000"));
    assert_eq!(Statement::from(-1), literal("-1"));
    assert_eq!(Statement::from(-120), literal("-120"));
}

#[test]
fn integer_limits() {
    assert_eq!(Statement::from(i32::MAX), literal("2147483647"));
    assert_eq!(Statement::from(i32::MIN), literal("-2147483648"));
}

#[test]
fn integer_literal_matches_the_standard_formatting() {
    for value in [0, 1, -1, 9, 10, 11, 99, 100, 101, -999, 123456789, i32::MAX, i32::MIN] {
        assert_eq!(Statement::from(value), literal(&value.to_string()));
    }
}

#[test]
fn into_converts_like_from() {
    let number: Statement = 5.into();
    let text: Statement = "five".into();
    assert_eq!(number, literal("5"));
    assert_eq!(text, literal("'five'"));
    assert_eq!(number.generate(), "5");
    assert_eq!(text.generate(), "'five'");
}
