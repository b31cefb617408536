//! Decimal text of integers.

use vstd::prelude::*;
use vstd::string::StringExecFns;

verus! {

/// The character of a single decimal digit.
pub open spec fn digit_char(d: int) -> char
    recommends
        0 <= d < 10,
{
    ('0' as int + d) as char
}

/// The number that a decimal digit stands for.
pub open spec fn digit_value(c: char) -> int
    recommends
        is_digit(c),
{
    c as int - '0' as int
}

/// Whether `c` is one of the ten decimal digits.
pub open spec fn is_digit(c: char) -> bool {
    '0' as int <= c as int <= '9' as int
}

/// The decimal digits of a natural number, most significant first, without
/// leading zeros; zero is the single digit `0`.
pub open spec fn natural_text(n: nat) -> Seq<char>
    decreases n,
{
    if n < 10 {
        seq![digit_char(n as int)]
    } else {
        natural_text(n / 10).push(digit_char((n % 10) as int))
    }
}

/// The decimal text of an integer: a minus sign before the digits of a
/// negative number, no sign otherwise.
pub open spec fn decimal_text(i: int) -> Seq<char> {
    if i < 0 {
        seq!['-'] + natural_text((-i) as nat)
    } else {
        natural_text(i as nat)
    }
}

/// The number that a sequence of digits denotes, read most significant
/// digit first.
pub open spec fn digits_value(text: Seq<char>) -> int
    decreases text.len(),
{
    if text.len() == 0 {
        0
    } else {
        digits_value(text.drop_last()) * 10 + digit_value(text.last())
    }
}

/// The number that a decimal text denotes: the value of its digits, negated
/// where a minus sign leads.
pub open spec fn decimal_value(text: Seq<char>) -> int {
    if text.len() > 0 && text[0] == '-' {
        -digits_value(text.skip(1))
    } else {
        digits_value(text)
    }
}

/// The digits of a natural number are digits, at least one, with no leading
/// zero but for zero itself, and they denote the number.
pub proof fn natural_text_denotes(n: nat)
    ensures
        natural_text(n).len() >= 1,
        forall|i: int| 0 <= i < natural_text(n).len() ==> is_digit(#[trigger] natural_text(n)[i]),
        natural_text(n)[0] == '0' <==> n == 0,
        digits_value(natural_text(n)) == n,
    decreases n,
{
    if n < 10 {
        let text = natural_text(n);
        assert(text.drop_last() =~= Seq::<char>::empty());
        assert(digits_value(text.drop_last()) == 0);
    } else {
        natural_text_denotes(n / 10);
        let shorter = natural_text(n / 10);
        let text = natural_text(n);
        assert(text.drop_last() =~= shorter);
        assert(text[0] == shorter[0]);
    }
}

/// The decimal text of an integer denotes the integer, so two integers with
/// the same text are the same.
pub proof fn decimal_text_denotes(i: int)
    ensures
        decimal_value(decimal_text(i)) == i,
{
    if i < 0 {
        let digits = natural_text((-i) as nat);
        natural_text_denotes((-i) as nat);
        assert(decimal_text(i).skip(1) =~= digits);
    } else {
        natural_text_denotes(i as nat);
    }
}

fn digit_str(d: u64) -> (text: &'static str)
    requires
        d < 10,
    ensures
        text@ == seq![digit_char(d as int)],
{
    proof {
        reveal_strlit("0");
        reveal_strlit("1");
        reveal_strlit("2");
        reveal_strlit("3");
        reveal_strlit("4");
        reveal_strlit("5");
        reveal_strlit("6");
        reveal_strlit("7");
        reveal_strlit("8");
        reveal_strlit("9");
    }
    let text = if d == 0 {
        "0"
    } else if d == 1 {
        "1"
    } else if d == 2 {
        "2"
    } else if d == 3 {
        "3"
    } else if d == 4 {
        "4"
    } else if d == 5 {
        "5"
    } else if d == 6 {
        "6"
    } else if d == 7 {
        "7"
    } else if d == 8 {
        "8"
    } else {
        "9"
    };
    assert(text@ =~= seq![digit_char(d as int)]);
    text
}

/// Appends the digits of `n` to `out`.
fn append_natural(out: &mut String, n: u64)
    ensures
        final(out)@ == old(out)@ + natural_text(n as nat),
    decreases n,
{
    if n >= 10 {
        append_natural(out, n / 10);
    }
    out.append(digit_str(n % 10));
    assert(final(out)@ =~= old(out)@ + natural_text(n as nat));
}

/// Appends the decimal text of `value` to `out`.
pub fn append_decimal(out: &mut String, value: i64)
    ensures
        final(out)@ == old(out)@ + decimal_text(value as int),
{
    if value < 0 {
        out.append("-");
        proof {
            reveal_strlit("-");
        }
        let magnitude: u64 = (-(value + 1)) as u64 + 1;
        append_natural(out, magnitude);
        assert(final(out)@ =~= old(out)@ + decimal_text(value as int));
    } else {
        append_natural(out, value as u64);
    }
}

/// The decimal text of `value` as a new string.
pub fn decimal_string(value: i64) -> (text: String)
    ensures
        text@ == decimal_text(value as int),
{
    let mut text = String::new();
    append_decimal(&mut text, value);
    assert(text@ =~= decimal_text(value as int));
    text
}

} // verus!
