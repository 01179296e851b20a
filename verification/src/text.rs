//! Text helpers.

use vstd::prelude::*;
use vstd::string::*;

verus! {

/// Whether two texts hold the same characters.
pub fn text_eq(a: &str, b: &str) -> (r: bool)
    ensures
        r == (a@ == b@),
{
    let left: String = a.to_owned();
    let right: String = b.to_owned();
    left == right
}

/// The decimal digit of a number below ten.
pub open spec fn digit(n: nat) -> char {
    if n == 0 {
        '0'
    } else if n == 1 {
        '1'
    } else if n == 2 {
        '2'
    } else if n == 3 {
        '3'
    } else if n == 4 {
        '4'
    } else if n == 5 {
        '5'
    } else if n == 6 {
        '6'
    } else if n == 7 {
        '7'
    } else if n == 8 {
        '8'
    } else {
        '9'
    }
}

/// The decimal notation of a number, without leading zeros.
pub open spec fn decimal(n: nat) -> Seq<char>
    decreases n,
{
    if n < 10 {
        seq![digit(n)]
    } else {
        decimal(n / 10).push(digit(n % 10))
    }
}

fn digit_text(n: u16) -> (r: &'static str)
    requires
        n < 10,
    ensures
        r@ == seq![digit(n as nat)],
{
    proof {
        reveal_strlit("0");
        reveal_strlit("1");
        reveal_strlit("2");
        reveal_strlit("3");
        reveal_strlit("4");
        reveal_strlit("5");
        reveal_strlit("6");
        reveal_strlit("7");
        reveal_strlit("8");
        reveal_strlit("9");
    }
    if n == 0 {
        "0"
    } else if n == 1 {
        "1"
    } else if n == 2 {
        "2"
    } else if n == 3 {
        "3"
    } else if n == 4 {
        "4"
    } else if n == 5 {
        "5"
    } else if n == 6 {
        "6"
    } else if n == 7 {
        "7"
    } else if n == 8 {
        "8"
    } else {
        "9"
    }
}

/// Writes a port number in decimal.
pub fn port_text(port: u16) -> (r: String)
    ensures
        r@ == decimal(port as nat),
    decreases port,
{
    if port < 10 {
        digit_text(port).to_owned()
    } else {
        let mut text: String = port_text(port / 10);
        text.append(digit_text(port % 10));
        assert(decimal((port / 10) as nat) + seq![digit((port % 10) as nat)] =~= decimal(
            (port / 10) as nat,
        ).push(digit((port % 10) as nat)));
        text
    }
}

/// Puts five texts behind one another.
pub fn join_texts(a: &str, b: &str, c: &str, d: &str, e: &str) -> (r: String)
    ensures
        r@ == a@ + b@ + c@ + d@ + e@,
{
    let mut text: String = a.to_owned();
    text.append(b);
    text.append(c);
    text.append(d);
    text.append(e);
    text
}

/// The characters of an optional text.
pub open spec fn opt_text(t: Option<&str>) -> Option<Seq<char>> {
    match t {
        Some(s) => Some(s@),
        None => None,
    }
}

/// The decimal notation of a number ends with its last digit, and has the notation of the
/// tens before it, where there are any.
pub proof fn decimal_is_digit_by_digit(n: nat)
    ensures
        decimal(n).len() > 0,
        decimal(n).last() as int == 48 + n % 10,
        n < 10 ==> decimal(n).len() == 1,
        n >= 10 ==> decimal(n).drop_last() == decimal(n / 10),
{
    let d: nat = n % 10;
    assert(digit(d) as int == 48 + d);
    if n >= 10 {
        assert(decimal(n).drop_last() =~= decimal(n / 10));
    }
}

/// The characters of an optional text are those of the text.
pub proof fn optional_texts_show_their_characters(text: &str)
    ensures
        opt_text(Some(text)) == Some(text@),
        opt_text(None) is None,
{
}

} // verus!
