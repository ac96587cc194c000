use vstd::prelude::*;
use vstd::std_specs::convert::FromSpecImpl;
use crate::module::block::{Statement, StatementView};

verus! {

/// `text` between single quotes. Quotes inside `text` are kept as they are.
pub open spec fn quoted(text: Seq<char>) -> Seq<char> {
    "'"@ + text + "'"@
}

/// The decimal digits of `n`, most significant first, without leading zeros.
pub open spec fn decimal_digits(n: nat) -> Seq<char>
    decreases n,
{
    if n < 10 {
        seq!["0123456789"@[n as int]]
    } else {
        decimal_digits(n / 10).push("0123456789"@[(n % 10) as int])
    }
}

/// The canonical decimal form of `value`: a minus sign for a negative number,
/// then the digits of its magnitude.
pub open spec fn decimal(value: int) -> Seq<char> {
    if value < 0 {
        "-"@ + decimal_digits((-value) as nat)
    } else {
        decimal_digits(value as nat)
    }
}

impl StatementView {
    /// The literal that a text value becomes.
    pub open spec fn text_literal(text: Seq<char>) -> StatementView {
        StatementView::Literal { value: quoted(text) }
    }

    /// The literal that an integer becomes.
    pub open spec fn int_literal(value: int) -> StatementView {
        StatementView::Literal { value: decimal(value) }
    }
}

/// The conversion of a value into its own type, `From<T> for T` of std, by which
/// a [`Statement`] is accepted wherever `Into<Statement>` is asked for. Not proved
/// here: std documents that it returns the argument unchanged.
pub assume_specification<T>[ <T as From<T>>::from ](t: T) -> (same: T)
    ensures
        same == t,
;

/// Appends the decimal digits of `n` to `out`.
fn push_decimal_digits(out: &mut String, n: u32)
    ensures
        final(out)@ == old(out)@ + decimal_digits(n as nat),
    decreases n,
{
    if n >= 10 {
        push_decimal_digits(out, n / 10);
    }
    let digits = "0123456789";
    proof {
        reveal_strlit("0123456789");
    }
    let d = (n % 10) as usize;
    out.append(digits.substring_ascii(d, d + 1));
    assert(digits@.subrange(d as int, d + 1) =~= seq![digits@[d as int]]);
}

/// Formats `value` in decimal.
fn decimal_string(value: i32) -> (text: String)
    ensures
        text@ == decimal(value as int),
{
    let mut text = String::new();
    if value < 0 {
        text.append("-");
        push_decimal_digits(&mut text, (0 - (value as i64)) as u32);
    } else {
        push_decimal_digits(&mut text, value as u32);
    }
    text
}

/// Wraps `text` in single quotes.
fn quoted_string(text: &str) -> (literal: String)
    ensures
        literal@ == quoted(text@),
{
    let mut literal = "'".to_owned();
    literal.append(text);
    literal.append("'");
    literal
}

impl From<&str> for Statement {
    /// A text value becomes a literal in single quotes, without escaping.
    fn from(code: &str) -> (statement: Statement)
        ensures
            statement@ == StatementView::text_literal(code@),
    {
        Statement::Literal { value: quoted_string(code) }
    }
}

/// The result holds a fresh string, which no spec expression can name: the
/// contract of `from` gives its model instead.
impl FromSpecImpl<&str> for Statement {
    open spec fn obeys_from_spec() -> bool {
        false
    }

    open spec fn from_spec(code: &str) -> Statement {
        arbitrary()
    }
}

impl From<String> for Statement {
    /// A text value becomes a literal in single quotes, without escaping.
    fn from(code: String) -> (statement: Statement)
        ensures
            statement@ == StatementView::text_literal(code@),
    {
        Statement::Literal { value: quoted_string(code.as_str()) }
    }
}

/// The result holds a fresh string, which no spec expression can name: the
/// contract of `from` gives its model instead.
impl FromSpecImpl<String> for Statement {
    open spec fn obeys_from_spec() -> bool {
        false
    }

    open spec fn from_spec(code: String) -> Statement {
        arbitrary()
    }
}

impl From<i32> for Statement {
    /// An integer becomes a literal that holds its decimal form.
    fn from(code: i32) -> (statement: Statement)
        ensures
            statement@ == StatementView::int_literal(code as int),
    {
        Statement::Literal { value: decimal_string(code) }
    }
}

/// The result holds a fresh string, which no spec expression can name: the
/// contract of `from` gives its model instead.
impl FromSpecImpl<i32> for Statement {
    open spec fn obeys_from_spec() -> bool {
        false
    }

    open spec fn from_spec(code: i32) -> Statement {
        arbitrary()
    }
}

} // verus!
