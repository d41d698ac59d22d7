//! Text form of a rendered pixel. The renderer's output encoding maps each
//! linear channel through gamma correction and quantization to an 8-bit value;
//! that numeric step is floating-point and happens outside the core. Here the
//! quantized channels are turned into their exact decimal text, the form the
//! plain-text image format carries.
use vstd::prelude::*;

verus! {

/// The decimal digit character for a value below ten.
pub open spec fn digit_char(d: nat) -> char {
    if d == 0 {
        '0'
    } else if d == 1 {
        '1'
    } else if d == 2 {
        '2'
    } else if d == 3 {
        '3'
    } else if d == 4 {
        '4'
    } else if d == 5 {
        '5'
    } else if d == 6 {
        '6'
    } else if d == 7 {
        '7'
    } else if d == 8 {
        '8'
    } else {
        '9'
    }
}

/// The decimal numeral of `n`, most significant digit first, without leading
/// zeros; the numeral of zero is the single digit `0`.
pub open spec fn decimal(n: nat) -> Seq<char>
    decreases n,
{
    if n < 10 {
        seq![digit_char(n)]
    } else {
        decimal(n / 10) + seq![digit_char(n % 10)]
    }
}

/// The text of one output pixel: the three quantized channels in decimal,
/// separated by single spaces.
pub open spec fn pixel_text(r: u8, g: u8, b: u8) -> Seq<char> {
    decimal(r as nat) + " "@ + decimal(g as nat) + " "@ + decimal(b as nat)
}

fn digit_str(d: u32) -> (r: &'static str)
    requires
        d < 10,
    ensures
        r@ == seq![digit_char(d as nat)],
{
    proof {
        reveal_strlit("0");
        reveal_strlit("1");
        reveal_strlit("2");
        reveal_strlit("3");
        reveal_strlit("4");
        reveal_strlit("5");
        reveal_strlit("6");
        reveal_strlit("7");
        reveal_strlit("8");
        reveal_strlit("9");
    }
    if d == 0 {
        "0"
    } else if d == 1 {
        "1"
    } else if d == 2 {
        "2"
    } else if d == 3 {
        "3"
    } else if d == 4 {
        "4"
    } else if d == 5 {
        "5"
    } else if d == 6 {
        "6"
    } else if d == 7 {
        "7"
    } else if d == 8 {
        "8"
    } else {
        "9"
    }
}

/// The decimal numeral of `n` as a string.
pub fn u32_decimal(n: u32) -> (s: String)
    ensures
        s@ == decimal(n as nat),
    decreases n,
{
    if n < 10 {
        digit_str(n).to_owned()
    } else {
        let mut s = u32_decimal(n / 10);
        s.append(digit_str(n % 10));
        s
    }
}

/// One pixel's quantized channels rendered as their "R G B" text.
pub fn format_color(r: u8, g: u8, b: u8) -> (s: String)
    ensures
        s@ == pixel_text(r, g, b),
{
    proof {
        reveal_strlit(" ");
    }
    let mut s = u32_decimal(r as u32);
    s.append(" ");
    s.append(u32_decimal(g as u32).as_str());
    s.append(" ");
    s.append(u32_decimal(b as u32).as_str());
    s
}

} // verus!
