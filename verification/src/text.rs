use vstd::prelude::*;
use vstd::string::StringExecFns;

verus! {

/// What str::to_lowercase returns for a given character sequence: a pure
/// function of the characters alone.
pub uninterp spec fn lower_of(s: Seq<char>) -> Seq<char>;

/// Relies on str::to_lowercase: the result depends on the characters alone.
#[verifier::external_body]
pub(crate) fn lowercase(s: &str) -> (r: String)
    ensures
        r@ == lower_of(s@),
{
    s.to_lowercase()
}

pub open spec fn dec_digit(d: int) -> char {
    if d == 0 {
        '0'
    } else if d == 1 {
        '1'
    } else if d == 2 {
        '2'
    } else if d == 3 {
        '3'
    } else if d == 4 {
        '4'
    } else if d == 5 {
        '5'
    } else if d == 6 {
        '6'
    } else if d == 7 {
        '7'
    } else if d == 8 {
        '8'
    } else {
        '9'
    }
}

pub open spec fn hex_digit(d: int) -> char {
    if d < 10 {
        dec_digit(d)
    } else if d == 10 {
        'A'
    } else if d == 11 {
        'B'
    } else if d == 12 {
        'C'
    } else if d == 13 {
        'D'
    } else if d == 14 {
        'E'
    } else {
        'F'
    }
}

/// A value below 100 as two decimal digits, zero-padded.
pub open spec fn pad2_dec(n: int) -> Seq<char> {
    seq![dec_digit(n / 10), dec_digit(n % 10)]
}

/// A byte as two uppercase hexadecimal digits, zero-padded.
pub open spec fn pad2_hex(n: int) -> Seq<char> {
    seq![hex_digit(n / 16), hex_digit(n % 16)]
}

/// An RGB triple as six uppercase hexadecimal digits.
pub open spec fn hex_rgb(r: u8, g: u8, b: u8) -> Seq<char> {
    pad2_hex(r as int) + pad2_hex(g as int) + pad2_hex(b as int)
}

fn dec_digit_str(d: u8) -> (r: &'static str)
    requires
        d < 10,
    ensures
        r@ =~= seq![dec_digit(d as int)],
{
    proof {
        reveal_strlit("0");
        reveal_strlit("1");
        reveal_strlit("2");
        reveal_strlit("3");
        reveal_strlit("4");
        reveal_strlit("5");
        reveal_strlit("6");
        reveal_strlit("7");
        reveal_strlit("8");
        reveal_strlit("9");
    }
    match d {
        0 => "0",
        1 => "1",
        2 => "2",
        3 => "3",
        4 => "4",
        5 => "5",
        6 => "6",
        7 => "7",
        8 => "8",
        _ => "9",
    }
}

fn hex_digit_str(d: u8) -> (r: &'static str)
    requires
        d < 16,
    ensures
        r@ =~= seq![hex_digit(d as int)],
{
    proof {
        reveal_strlit("A");
        reveal_strlit("B");
        reveal_strlit("C");
        reveal_strlit("D");
        reveal_strlit("E");
        reveal_strlit("F");
    }
    if d < 10 {
        dec_digit_str(d)
    } else {
        match d {
            10 => "A",
            11 => "B",
            12 => "C",
            13 => "D",
            14 => "E",
            _ => "F",
        }
    }
}

/// Appends a value below 100 as two zero-padded decimal digits.
pub fn push_pad2_dec(buf: &mut String, n: u8)
    requires
        n < 100,
    ensures
        final(buf)@ == old(buf)@ + pad2_dec(n as int),
{
    buf.append(dec_digit_str(n / 10));
    buf.append(dec_digit_str(n % 10));
    proof {
        assert(buf@ =~= old(buf)@ + pad2_dec(n as int));
    }
}

/// Appends a byte as two zero-padded uppercase hexadecimal digits.
pub fn push_pad2_hex(buf: &mut String, n: u8)
    ensures
        final(buf)@ == old(buf)@ + pad2_hex(n as int),
{
    buf.append(hex_digit_str(n / 16));
    buf.append(hex_digit_str(n % 16));
    proof {
        assert(buf@ =~= old(buf)@ + pad2_hex(n as int));
    }
}

/// Appends an RGB triple as six uppercase hexadecimal digits.
pub fn push_hex_rgb(buf: &mut String, r: u8, g: u8, b: u8)
    ensures
        final(buf)@ == old(buf)@ + hex_rgb(r, g, b),
{
    push_pad2_hex(buf, r);
    push_pad2_hex(buf, g);
    push_pad2_hex(buf, b);
    proof {
        assert(buf@ =~= old(buf)@ + hex_rgb(r, g, b));
    }
}

} // verus!
