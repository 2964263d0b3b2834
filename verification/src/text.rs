//! Decimal rendering of signature bytes for diagnostic messages.

use vstd::prelude::*;
use vstd::string::*;

verus! {

/// The character that stands for a decimal digit.
pub open spec fn digit_char(d: nat) -> char {
    if d == 0 {
        '0'
    } else if d == 1 {
        '1'
    } else if d == 2 {
        '2'
    } else if d == 3 {
        '3'
    } else if d == 4 {
        '4'
    } else if d == 5 {
        '5'
    } else if d == 6 {
        '6'
    } else if d == 7 {
        '7'
    } else if d == 8 {
        '8'
    } else {
        '9'
    }
}

/// A number in decimal notation, without leading zeros.
pub open spec fn decimal_of(n: nat) -> Seq<char>
    decreases n,
{
    if n < 10 {
        seq![digit_char(n)]
    } else {
        decimal_of(n / 10).push(digit_char(n % 10))
    }
}

/// Four bytes as a bracketed list of decimal numbers, such as `[0, 17, 34, 51]`.
pub open spec fn signature_text(prefix: [u8; 4]) -> Seq<char> {
    "["@ + decimal_of(prefix[0] as nat) + ", "@ + decimal_of(prefix[1] as nat) + ", "@
        + decimal_of(prefix[2] as nat) + ", "@ + decimal_of(prefix[3] as nat) + "]"@
}

fn digit_str(d: u8) -> (s: &'static str)
    requires
        d < 10,
    ensures
        s@ == seq![digit_char(d as nat)],
{
    proof {
        reveal_strlit("0");
        reveal_strlit("1");
        reveal_strlit("2");
        reveal_strlit("3");
        reveal_strlit("4");
        reveal_strlit("5");
        reveal_strlit("6");
        reveal_strlit("7");
        reveal_strlit("8");
        reveal_strlit("9");
    }
    let s = match d {
        0 => "0",
        1 => "1",
        2 => "2",
        3 => "3",
        4 => "4",
        5 => "5",
        6 => "6",
        7 => "7",
        8 => "8",
        _ => "9",
    };
    assert(s@ =~= seq![digit_char(d as nat)]);
    s
}

/// Appends the decimal notation of a byte to a text.
pub fn push_decimal(out: &mut String, b: u8)
    ensures
        final(out)@ == old(out)@ + decimal_of(b as nat),
{
    reveal_with_fuel(decimal_of, 3);
    if b >= 100 {
        out.append(digit_str(b / 100));
    }
    if b >= 10 {
        out.append(digit_str((b / 10) % 10));
    }
    out.append(digit_str(b % 10));
    assert(final(out)@ =~= old(out)@ + decimal_of(b as nat));
}

/// Renders four signature bytes as they appear in a warning.
pub fn render_signature(prefix: [u8; 4]) -> (text: String)
    ensures
        text@ == signature_text(prefix),
{
    let mut text = String::from_str("[");
    push_decimal(&mut text, prefix[0]);
    text.append(", ");
    push_decimal(&mut text, prefix[1]);
    text.append(", ");
    push_decimal(&mut text, prefix[2]);
    text.append(", ");
    push_decimal(&mut text, prefix[3]);
    text.append("]");
    text
}

} // verus!
