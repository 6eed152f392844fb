//! Building the text of listings: upper-case hexadecimal numbers of a fixed
//! width, appended to a `String`.

use vstd::prelude::*;

verus! {

/// The upper-case hexadecimal digit of `d` (0 to 15).
pub open spec fn hex_digit(d: int) -> Seq<char> {
    if d == 0 {
        "0"@
    } else if d == 1 {
        "1"@
    } else if d == 2 {
        "2"@
    } else if d == 3 {
        "3"@
    } else if d == 4 {
        "4"@
    } else if d == 5 {
        "5"@
    } else if d == 6 {
        "6"@
    } else if d == 7 {
        "7"@
    } else if d == 8 {
        "8"@
    } else if d == 9 {
        "9"@
    } else if d == 10 {
        "A"@
    } else if d == 11 {
        "B"@
    } else if d == 12 {
        "C"@
    } else if d == 13 {
        "D"@
    } else if d == 14 {
        "E"@
    } else {
        "F"@
    }
}

/// The lowest `width` hexadecimal digits of `v`, most significant first
/// (what `{:0width$X}` prints for a value below 16 to the `width`).
pub open spec fn hex_text(v: nat, width: nat) -> Seq<char>
    decreases width,
{
    if width == 0 {
        Seq::empty()
    } else {
        hex_text(v / 16, (width - 1) as nat) + hex_digit((v % 16) as int)
    }
}

/// The digit of a nibble as a string slice.
fn hex_digit_str(d: u16) -> (r: &'static str)
    requires
        d < 16,
    ensures
        r@ == hex_digit(d as int),
{
    match d {
        0 => "0",
        1 => "1",
        2 => "2",
        3 => "3",
        4 => "4",
        5 => "5",
        6 => "6",
        7 => "7",
        8 => "8",
        9 => "9",
        10 => "A",
        11 => "B",
        12 => "C",
        13 => "D",
        14 => "E",
        _ => "F",
    }
}

/// Append the lowest `width` hexadecimal digits of `v`, most significant first.
pub fn append_hex(s: &mut String, v: u16, width: u8)
    ensures
        final(s)@ == old(s)@ + hex_text(v as nat, width as nat),
    decreases width,
{
    if width > 0 {
        append_hex(s, v / 16, width - 1);
        s.append(hex_digit_str(v % 16));
    } else {
        assert(old(s)@ + hex_text(v as nat, 0) =~= old(s)@);
    }
}

/// The lowest `width` binary digits of `v`, most significant first.
pub open spec fn bin_text(v: nat, width: nat) -> Seq<char>
    decreases width,
{
    if width == 0 {
        Seq::empty()
    } else {
        bin_text(v / 2, (width - 1) as nat) + if v % 2 == 0 {
            "0"@
        } else {
            "1"@
        }
    }
}

/// Append the lowest `width` binary digits of `v`, most significant first.
pub fn append_bin(s: &mut String, v: u16, width: u8)
    ensures
        final(s)@ == old(s)@ + bin_text(v as nat, width as nat),
    decreases width,
{
    if width > 0 {
        append_bin(s, v / 2, width - 1);
        if v % 2 == 0 {
            s.append("0");
        } else {
            s.append("1");
        }
    } else {
        assert(old(s)@ + bin_text(v as nat, 0) =~= old(s)@);
    }
}

/// The lower-case hexadecimal digit of `d` (0 to 15).
pub open spec fn hex_digit_lower(d: int) -> Seq<char> {
    if d == 10 {
        "a"@
    } else if d == 11 {
        "b"@
    } else if d == 12 {
        "c"@
    } else if d == 13 {
        "d"@
    } else if d == 14 {
        "e"@
    } else if d == 15 {
        "f"@
    } else {
        hex_digit(d)
    }
}

/// The lowest `width` lower-case hexadecimal digits of `v` (`{:0width$x}`).
pub open spec fn hex_text_lower(v: nat, width: nat) -> Seq<char>
    decreases width,
{
    if width == 0 {
        Seq::empty()
    } else {
        hex_text_lower(v / 16, (width - 1) as nat) + hex_digit_lower((v % 16) as int)
    }
}

/// Append the lowest `width` lower-case hexadecimal digits of `v`.
pub fn append_hex_lower(s: &mut String, v: u16, width: u8)
    ensures
        final(s)@ == old(s)@ + hex_text_lower(v as nat, width as nat),
    decreases width,
{
    if width > 0 {
        append_hex_lower(s, v / 16, width - 1);
        let d = v % 16;
        if d == 10 {
            s.append("a");
        } else if d == 11 {
            s.append("b");
        } else if d == 12 {
            s.append("c");
        } else if d == 13 {
            s.append("d");
        } else if d == 14 {
            s.append("e");
        } else if d == 15 {
            s.append("f");
        } else {
            s.append(hex_digit_str(d));
        }
    } else {
        assert(old(s)@ + hex_text_lower(v as nat, 0) =~= old(s)@);
    }
}

/// The number of binary digits `{:0min$b}` prints for `v`: its bit length,
/// but at least `min`.
pub open spec fn bin_width(v: nat, min: nat) -> nat
    decreases v,
{
    if v == 0 {
        min
    } else {
        let w = bin_width(v / 2, if min > 0 { (min - 1) as nat } else { 0 });
        w + 1
    }
}

/// Append `v` in binary as `{:0min$b}` does: all its digits, zero-padded to `min`.
pub fn append_bin_padded(s: &mut String, v: u16, min: u8)
    requires
        min <= 16,
    ensures
        final(s)@ == old(s)@ + bin_text(v as nat, bin_width(v as nat, min as nat)),
{
    let width = bin_digits(v, min);
    append_bin(s, v, width);
}

/// `bin_width` of a word, computed.
fn bin_digits(v: u16, min: u8) -> (r: u8)
    requires
        min <= 16,
    ensures
        r == bin_width(v as nat, min as nat),
        r <= 16,
    decreases v,
{
    if v == 0 {
        min
    } else {
        let w = bin_digits(v / 2, if min > 0 { min - 1 } else { 0 });
        proof {
            reveal_with_fuel(two_to, 17);
            assert(two_to(16) == 65536);
            lemma_bin_width_bound(v as nat, min as nat, 16);
        }
        w + 1
    }
}

/// Two to the `k`.
spec fn two_to(k: nat) -> nat
    decreases k,
{
    if k == 0 {
        1
    } else {
        2 * two_to((k - 1) as nat)
    }
}

/// A number below two to the `k` has a binary width of at most `k`, when
/// the minimum is at most `k`.
proof fn lemma_bin_width_bound(v: nat, min: nat, k: nat)
    requires
        v < two_to(k),
        min <= k,
    ensures
        bin_width(v, min) <= k,
    decreases k,
{
    if v > 0 {
        assert(k > 0);
        lemma_bin_width_bound(v / 2, if min > 0 { (min - 1) as nat } else { 0 }, (k - 1) as nat);
    }
}

/// The decimal digits of `n` (`{}` of an unsigned number).
pub open spec fn dec_text(n: nat) -> Seq<char>
    decreases n,
{
    if n < 10 {
        hex_digit(n as int)
    } else {
        dec_text(n / 10) + hex_digit((n % 10) as int)
    }
}

/// Append `n` in decimal.
pub fn append_dec(s: &mut String, n: usize)
    ensures
        final(s)@ == old(s)@ + dec_text(n as nat),
    decreases n,
{
    if n < 10 {
        s.append(hex_digit_str(n as u16));
    } else {
        append_dec(s, n / 10);
        s.append(hex_digit_str((n % 10) as u16));
    }
}

/// `true` or `false`, as `{}` prints a boolean.
pub open spec fn bool_text(b: bool) -> Seq<char> {
    if b {
        "true"@
    } else {
        "false"@
    }
}

/// Append a boolean as `{}` prints it.
pub fn append_bool(s: &mut String, b: bool)
    ensures
        final(s)@ == old(s)@ + bool_text(b),
{
    if b {
        s.append("true");
    } else {
        s.append("false");
    }
}

} // verus!
