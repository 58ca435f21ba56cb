use vstd::prelude::*;
use vstd::string::StringExecFns;

verus! {

/// ASCII code of the decimal digit `d`.
pub open spec fn digit_byte(d: nat) -> u8 {
    (d + 48) as u8
}

/// Decimal representation of `n` in ASCII, without leading zeros.
pub open spec fn decimal(n: nat) -> Seq<u8>
    decreases n,
{
    if n < 10 {
        seq![digit_byte(n)]
    } else {
        decimal(n / 10).push(digit_byte(n % 10))
    }
}

/// One PPM (plain text) pixel: the three channel levels in decimal,
/// separated by spaces, ending the line.
pub open spec fn ppm_pixel_line(r: nat, g: nat, b: nat) -> Seq<u8> {
    decimal(r) + seq![32u8] + decimal(g) + seq![32u8] + decimal(b) + seq![10u8]
}

/// The header of a plain-text PPM image of the given size with 8-bit levels:
/// `P3`, then `width height`, then `255`, each on its own line.
pub open spec fn ppm_header_text(width: nat, height: nat) -> Seq<u8> {
    seq![80u8, 51u8, 10u8] + decimal(width) + seq![32u8] + decimal(height) + seq![
        10u8,
        50u8,
        53u8,
        53u8,
        10u8,
    ]
}

/// The characters of an ASCII byte sequence.
pub open spec fn ascii_chars(s: Seq<u8>) -> Seq<char> {
    s.map_values(|b: u8| b as char)
}

/// Appends the decimal representation of `n`.
pub fn push_decimal(out: &mut Vec<u8>, n: u32)
    ensures
        final(out)@ == old(out)@ + decimal(n as nat),
    decreases n,
{
    if n >= 10 {
        push_decimal(out, n / 10);
    }
    out.push((n % 10) as u8 + 48);
    assert(final(out)@ =~= old(out)@ + decimal(n as nat));
}

/// Appends the ASCII bytes of one PPM pixel line with levels `r`, `g`, `b`.
pub fn write_color_ppm(out: &mut Vec<u8>, r: u32, g: u32, b: u32)
    ensures
        final(out)@ == old(out)@ + ppm_pixel_line(r as nat, g as nat, b as nat),
{
    push_decimal(out, r);
    out.push(32);
    push_decimal(out, g);
    out.push(32);
    push_decimal(out, b);
    out.push(10);
    assert(final(out)@ =~= old(out)@ + ppm_pixel_line(r as nat, g as nat, b as nat));
}

/// The PPM header for an image of `width` by `height` pixels.
pub fn ppm_header(width: u32, height: u32) -> (r: Vec<u8>)
    ensures
        r@ == ppm_header_text(width as nat, height as nat),
{
    let mut out: Vec<u8> = Vec::new();
    out.push(80);
    out.push(51);
    out.push(10);
    push_decimal(&mut out, width);
    out.push(32);
    push_decimal(&mut out, height);
    out.push(10);
    out.push(50);
    out.push(53);
    out.push(53);
    out.push(10);
    assert(out@ =~= ppm_header_text(width as nat, height as nat));
    out
}

/// The one-character string of decimal digit `d`.
fn digit_str(d: u32) -> (r: &'static str)
    requires
        d < 10,
    ensures
        r@ == seq![digit_byte(d as nat) as char],
{
    proof {
        reveal_strlit("0");
        reveal_strlit("1");
        reveal_strlit("2");
        reveal_strlit("3");
        reveal_strlit("4");
        reveal_strlit("5");
        reveal_strlit("6");
        reveal_strlit("7");
        reveal_strlit("8");
        reveal_strlit("9");
    }
    if d == 0 {
        "0"
    } else if d == 1 {
        "1"
    } else if d == 2 {
        "2"
    } else if d == 3 {
        "3"
    } else if d == 4 {
        "4"
    } else if d == 5 {
        "5"
    } else if d == 6 {
        "6"
    } else if d == 7 {
        "7"
    } else if d == 8 {
        "8"
    } else {
        "9"
    }
}

/// Appends the decimal representation of `n` to a string.
pub fn push_decimal_str(out: &mut String, n: u32)
    ensures
        final(out)@ == old(out)@ + ascii_chars(decimal(n as nat)),
    decreases n,
{
    if n >= 10 {
        push_decimal_str(out, n / 10);
    }
    out.append(digit_str(n % 10));
    if n >= 10 {
        assert(ascii_chars(decimal(n as nat)) =~= ascii_chars(decimal((n / 10) as nat)) + seq![
            digit_byte((n % 10) as nat) as char,
        ]);
    }
    assert(final(out)@ =~= old(out)@ + ascii_chars(decimal(n as nat)));
}

/// Appends one PPM pixel line with levels `r`, `g`, `b` to a string.
pub fn write_pixel_str_ppm(out: &mut String, r: u32, g: u32, b: u32)
    ensures
        final(out)@ == old(out)@ + ascii_chars(ppm_pixel_line(r as nat, g as nat, b as nat)),
{
    proof {
        reveal_strlit(" ");
        reveal_strlit("\n");
    }
    push_decimal_str(out, r);
    out.append(" ");
    push_decimal_str(out, g);
    out.append(" ");
    push_decimal_str(out, b);
    out.append("\n");
    assert(final(out)@ =~= old(out)@ + ascii_chars(
        ppm_pixel_line(r as nat, g as nat, b as nat),
    ));
}

} // verus!
