//! Small string utilities: comparison, joining and decimal rendering.

use vstd::prelude::*;
use vstd::string::*;

verus! {

/// `str` equality from the standard library: two string slices compare equal
/// exactly when they hold the same characters.
pub assume_specification[ <str as PartialEq>::eq ](a: &str, b: &str) -> (r: bool)
    ensures
        r == (a@ == b@),
;

/// The character of a decimal digit.
pub open spec fn digit_char(d: nat) -> char {
    if d == 0 {
        '0'
    } else if d == 1 {
        '1'
    } else if d == 2 {
        '2'
    } else if d == 3 {
        '3'
    } else if d == 4 {
        '4'
    } else if d == 5 {
        '5'
    } else if d == 6 {
        '6'
    } else if d == 7 {
        '7'
    } else if d == 8 {
        '8'
    } else {
        '9'
    }
}

/// The decimal numeral of `n`, most significant digit first, without padding.
pub open spec fn decimal_digits(n: nat) -> Seq<char>
    decreases n,
{
    if n < 10 {
        seq![digit_char(n)]
    } else {
        decimal_digits(n / 10).push(digit_char(n % 10))
    }
}

/// The one-character text of a decimal digit.
fn digit_text(d: u8) -> (r: &'static str)
    requires
        d < 10,
    ensures
        r@ == seq![digit_char(d as nat)],
{
    proof {
        reveal_strlit("0");
        reveal_strlit("1");
        reveal_strlit("2");
        reveal_strlit("3");
        reveal_strlit("4");
        reveal_strlit("5");
        reveal_strlit("6");
        reveal_strlit("7");
        reveal_strlit("8");
        reveal_strlit("9");
    }
    let r = if d == 0 {
        "0"
    } else if d == 1 {
        "1"
    } else if d == 2 {
        "2"
    } else if d == 3 {
        "3"
    } else if d == 4 {
        "4"
    } else if d == 5 {
        "5"
    } else if d == 6 {
        "6"
    } else if d == 7 {
        "7"
    } else if d == 8 {
        "8"
    } else {
        "9"
    };
    assert(r@ =~= seq![digit_char(d as nat)]);
    r
}

/// The digits still to be written in front of those already rendered.
spec fn pending_digits(rest: nat) -> Seq<char> {
    if rest > 0 {
        decimal_digits(rest)
    } else {
        Seq::empty()
    }
}

/// Renders `n` in decimal.
pub fn decimal(n: u64) -> (r: String)
    ensures
        r@ == decimal_digits(n as nat),
{
    let mut rest: u64 = n / 10;
    let mut out: String = digit_text((n % 10) as u8).to_owned();
    assert(decimal_digits(n as nat) =~= pending_digits(rest as nat) + out@);
    while rest > 0
        invariant
            decimal_digits(n as nat) == pending_digits(rest as nat) + out@,
        decreases rest,
    {
        let d: u8 = (rest % 10) as u8;
        let next: u64 = rest / 10;
        let head: String = digit_text(d).to_owned();
        let ghost before = out@;
        out = head.concat(out.as_str());
        assert(pending_digits(rest as nat) + before =~= pending_digits(next as nat) + out@);
        rest = next;
    }
    assert(pending_digits(0) + out@ =~= out@);
    out
}

/// The characters of each text of a list.
pub open spec fn texts(items: Seq<String>) -> Seq<Seq<char>> {
    items.map_values(|s: String| s@)
}

/// A copy of a list of texts.
pub fn copy_texts(items: &Vec<String>) -> (r: Vec<String>)
    ensures
        texts(r@) == texts(items@),
{
    let mut out: Vec<String> = Vec::new();
    let mut i: usize = 0;
    while i < items.len()
        invariant
            i <= items.len(),
            out.len() == i,
            forall|j: int| 0 <= j < i ==> out[j]@ == items[j]@,
        decreases items.len() - i,
    {
        out.push(items[i].clone());
        i += 1;
    }
    assert(texts(out@) =~= texts(items@));
    out
}

/// The result of `format!("{:?}", s)` on a text: the text between double
/// quotes, with the escapes that the standard library's `Debug` impl of `str`
/// applies.
pub uninterp spec fn debug_quoted(s: Seq<char>) -> Seq<char>;

/// Renders a text the way the standard library's `Debug` impl of `str` does.
#[verifier::external_body]
pub(crate) fn debug_quote(s: &str) -> (r: String)
    ensures
        r@ == debug_quoted(s@),
{
    format!("{:?}", s)
}

/// A fraction in parts per million written with two decimals, rounded half
/// up: `850_000` gives `0.85`.
pub open spec fn two_decimal_digits(ppm: u32) -> Seq<char> {
    let hundredths = (ppm + 5_000) / 10_000;
    decimal_digits((hundredths / 100) as nat) + seq![
        '.',
        digit_char(((hundredths % 100) / 10) as nat),
        digit_char((hundredths % 10) as nat),
    ]
}

/// Writes a fraction in parts per million with two decimals.
pub fn two_decimals(ppm: u32) -> (r: String)
    ensures
        r@ == two_decimal_digits(ppm),
{
    let hundredths: u64 = (ppm as u64 + 5_000) / 10_000;
    let whole = decimal(hundredths / 100);
    let tens = digit_text(((hundredths % 100) / 10) as u8);
    let units = digit_text((hundredths % 10) as u8);
    proof {
        reveal_strlit(".");
    }
    let r = whole.concat(".").concat(tens).concat(units);
    assert(r@ =~= two_decimal_digits(ppm));
    r
}

/// The text `a` followed by the text `b`.
pub fn join(a: &str, b: &str) -> (r: String)
    ensures
        r@ == a@ + b@,
{
    a.to_owned().concat(b)
}

} // verus!
