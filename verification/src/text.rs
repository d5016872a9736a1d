//! The texts that a game shows: numbers in decimal, the score header and the
//! closing banner.

use vstd::prelude::*;
use vstd::string::*;

verus! {

/// The character of a decimal digit.
pub open spec fn digit(d: nat) -> char
    recommends
        d < 10,
{
    if d == 0 {
        '0'
    } else if d == 1 {
        '1'
    } else if d == 2 {
        '2'
    } else if d == 3 {
        '3'
    } else if d == 4 {
        '4'
    } else if d == 5 {
        '5'
    } else if d == 6 {
        '6'
    } else if d == 7 {
        '7'
    } else if d == 8 {
        '8'
    } else {
        '9'
    }
}

/// A number in decimal, without leading zeros.
pub open spec fn decimal(n: nat) -> Seq<char>
    decreases n,
{
    if n < 10 {
        seq![digit(n)]
    } else {
        decimal(n / 10).push(digit(n % 10))
    }
}

/// A text moved to the right edge of a field of `width` characters: blanks
/// fill the field on the left, and a text that is wider stays as it is.
pub open spec fn right_aligned(text: Seq<char>, width: nat) -> Seq<char> {
    if text.len() >= width {
        text
    } else {
        Seq::new((width - text.len()) as nat, |i: int| ' ') + text
    }
}

/// The header line for a score.
pub open spec fn header(score: nat) -> Seq<char> {
    "Score: "@ + decimal(score)
}

/// The closing banner for a score: a box of three lines, the score
/// right-aligned in a field of three characters.
pub open spec fn banner(score: nat) -> Seq<char> {
    "+-----------------------+\n| You scored"@ + right_aligned(decimal(score), 3)
        + " points. |\n+-----------------------+"@
}

fn digit_text(d: u64) -> (text: &'static str)
    requires
        d < 10,
    ensures
        text@ == seq![digit(d as nat)],
{
    proof {
        reveal_strlit("0");
        reveal_strlit("1");
        reveal_strlit("2");
        reveal_strlit("3");
        reveal_strlit("4");
        reveal_strlit("5");
        reveal_strlit("6");
        reveal_strlit("7");
        reveal_strlit("8");
        reveal_strlit("9");
    }
    if d == 0 {
        "0"
    } else if d == 1 {
        "1"
    } else if d == 2 {
        "2"
    } else if d == 3 {
        "3"
    } else if d == 4 {
        "4"
    } else if d == 5 {
        "5"
    } else if d == 6 {
        "6"
    } else if d == 7 {
        "7"
    } else if d == 8 {
        "8"
    } else {
        "9"
    }
}

/// Writes `n` in decimal.
pub fn decimal_text(n: u64) -> (text: String)
    ensures
        text@ == decimal(n as nat),
    decreases n,
{
    if n < 10 {
        String::from_str(digit_text(n))
    } else {
        let mut text = decimal_text(n / 10);
        text.append(digit_text(n % 10));
        text
    }
}

/// Right-aligns `text` in a field of `width` characters.
pub fn align_right(text: &str, width: usize) -> (aligned: String)
    ensures
        aligned@ == right_aligned(text@, width as nat),
{
    let len: usize = text.unicode_len();
    let mut aligned = String::new();
    let mut filled: usize = len;
    while filled < width
        invariant
            len == text@.len(),
            len <= filled,
            len < width ==> filled <= width,
            len >= width ==> filled == len,
            aligned@ == Seq::new((filled - len) as nat, |i: int| ' '),
        decreases width - filled,
    {
        proof {
            reveal_strlit(" ");
        }
        aligned.append(" ");
        filled = filled + 1;
    }
    aligned.append(text);
    aligned
}

/// The header line for `score`.
pub fn header_text(score: u64) -> (text: String)
    ensures
        text@ == header(score as nat),
{
    let mut text = String::from_str("Score: ");
    let digits = decimal_text(score);
    text.append(digits.as_str());
    text
}

/// The closing banner for `score`.
pub fn banner_text(score: u64) -> (text: String)
    ensures
        text@ == banner(score as nat),
{
    let mut text = String::from_str("+-----------------------+\n| You scored");
    let digits = decimal_text(score);
    let field = align_right(digits.as_str(), 3);
    text.append(field.as_str());
    text.append(" points. |\n+-----------------------+");
    text
}

} // verus!
