//! Text assembly: concatenation and decimal rendering.

use vstd::prelude::*;
use vstd::string::*;

verus! {

/// The character of a decimal digit.
pub open spec fn digit(d: int) -> char
    recommends
        0 <= d < 10,
{
    ('0' as int + d) as char
}

/// The decimal rendering of a natural number, without leading zeros.
pub open spec fn decimal(n: nat) -> Seq<char>
    decreases n,
{
    if n < 10 {
        seq![digit(n as int)]
    } else {
        decimal(n / 10).push(digit((n % 10) as int))
    }
}

fn digit_str(d: u64) -> (s: &'static str)
    requires
        d < 10,
    ensures
        s@ == seq![digit(d as int)],
{
    proof {
        reveal_strlit("0");
        reveal_strlit("1");
        reveal_strlit("2");
        reveal_strlit("3");
        reveal_strlit("4");
        reveal_strlit("5");
        reveal_strlit("6");
        reveal_strlit("7");
        reveal_strlit("8");
        reveal_strlit("9");
    }
    if d == 0 {
        "0"
    } else if d == 1 {
        "1"
    } else if d == 2 {
        "2"
    } else if d == 3 {
        "3"
    } else if d == 4 {
        "4"
    } else if d == 5 {
        "5"
    } else if d == 6 {
        "6"
    } else if d == 7 {
        "7"
    } else if d == 8 {
        "8"
    } else {
        "9"
    }
}

/// Renders `n` in decimal.
pub fn decimal_string(n: u64) -> (s: String)
    ensures
        s@ == decimal(n as nat),
    decreases n,
{
    if n < 10 {
        digit_str(n).to_owned()
    } else {
        let mut s = decimal_string(n / 10);
        s.append(digit_str(n % 10));
        s
    }
}

/// Concatenates two texts.
pub fn concat2(a: &str, b: &str) -> (s: String)
    ensures
        s@ == a@ + b@,
{
    let mut s = a.to_owned();
    s.append(b);
    s
}

/// The characters of an optional text.
pub open spec fn opt_text(text: Option<String>) -> Option<Seq<char>> {
    match text {
        Some(s) => Some(s@),
        None => None,
    }
}

// ---- Laws ----

/// The number that a series of decimal digits stands for, the most significant first.
pub open spec fn digits_value(digits: Seq<char>) -> nat
    decreases digits.len(),
{
    if digits.len() == 0 {
        0
    } else {
        (10 * digits_value(digits.drop_last()) + (digits.last() as int - '0' as int)) as nat
    }
}

/// A number is rendered by digits alone, the rendering stands for the number itself, and only
/// that of zero starts with a zero.
pub proof fn rendering_reads_back(n: nat)
    ensures
        digits_value(decimal(n)) == n,
        decimal(n).len() > 0,
        forall|i: int| 0 <= i < decimal(n).len() ==> '0' <= #[trigger] decimal(n)[i] <= '9',
        decimal(n)[0] == '0' ==> decimal(n).len() == 1,
    decreases n,
{
    if n < 10 {
        assert(decimal(n).drop_last() =~= Seq::empty());
        assert(digits_value(decimal(n).drop_last()) == 0);
    } else {
        rendering_reads_back(n / 10);
        assert(decimal(n).drop_last() =~= decimal(n / 10));
        if decimal(n)[0] == '0' {
            assert(decimal(n / 10).len() == 1);
            assert(decimal(n / 10).drop_last() =~= Seq::empty());
            assert(digits_value(decimal(n / 10)) == 0) by {
                reveal_with_fuel(digits_value, 2);
            }
        }
    }
}

/// Different numbers are rendered differently.
pub proof fn renderings_tell_numbers_apart(n: nat, m: nat)
    ensures
        decimal(n) == decimal(m) <==> n == m,
{
    rendering_reads_back(n);
    rendering_reads_back(m);
}

/// An optional text is there exactly when its characters are, and they are its own.
pub proof fn optional_text_keeps_its_characters(text: String)
    ensures
        opt_text(Some(text)) == Some(text@),
        opt_text(None) is None,
{
}

/// A text that is made of two holds the first, then the second, and nothing else; a number is
/// rendered as itself.
pub proof fn texts_are_made_of_their_parts(
    a: &str,
    b: &str,
    joined: String,
    n: u64,
    rendered: String,
)
    requires
        call_ensures(concat2, (a, b), joined),
        call_ensures(decimal_string, (n,), rendered),
    ensures
        joined@.len() == a@.len() + b@.len(),
        joined@.take(a@.len() as int) == a@,
        joined@.skip(a@.len() as int) == b@,
        digits_value(rendered@) == n,
{
    rendering_reads_back(n as nat);
}

} // verus!
