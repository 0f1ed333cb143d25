//! Rendering of machine words as text for the diagnostic path: lowercase
//! hexadecimal for the trap-cause registers, decimal for source-location
//! line numbers. No leading zeros; a value of zero renders as a single
//! digit.

use vstd::prelude::*;

verus! {

/// The ASCII digit for one value below sixteen: `'0'..'9'` then `'a'..'f'`.
pub open spec fn hex_digit(d: u8) -> u8
    recommends
        d < 16,
{
    if d < 10 {
        (48 + d) as u8
    } else {
        (87 + d) as u8
    }
}

/// The lowercase hexadecimal rendering of a word, most significant digit
/// first, with no leading zeros.
pub open spec fn hex_bytes_of(n: u32) -> Seq<u8>
    decreases n,
{
    if n < 16 {
        seq![hex_digit(n as u8)]
    } else {
        hex_bytes_of(n / 16).push(hex_digit((n % 16) as u8))
    }
}

/// The decimal rendering of a word, most significant digit first, with no
/// leading zeros.
pub open spec fn dec_bytes_of(n: u32) -> Seq<u8>
    decreases n,
{
    if n < 10 {
        seq![(48 + n) as u8]
    } else {
        dec_bytes_of(n / 10).push((48 + n % 10) as u8)
    }
}

/// The ASCII digit for one value below sixteen.
fn hex_digit_byte(d: u8) -> (r: u8)
    requires
        d < 16,
    ensures
        r == hex_digit(d),
{
    if d < 10 {
        48 + d
    } else {
        87 + d
    }
}

/// Appends the lowercase hexadecimal rendering of `n`.
pub fn push_hex(out: &mut Vec<u8>, n: u32)
    ensures
        final(out)@ == old(out)@ + hex_bytes_of(n),
    decreases n,
{
    if n >= 16 {
        push_hex(out, n / 16);
    }
    out.push(hex_digit_byte((n % 16) as u8));
    proof {
        if n < 16 {
            assert(old(out)@ + hex_bytes_of(n) =~= old(out)@.push(hex_digit(n as u8)));
        } else {
            assert(old(out)@ + hex_bytes_of(n) =~= (old(out)@ + hex_bytes_of(n / 16)).push(
                hex_digit((n % 16) as u8),
            ));
        }
    }
}

/// Appends the decimal rendering of `n`.
pub fn push_dec(out: &mut Vec<u8>, n: u32)
    ensures
        final(out)@ == old(out)@ + dec_bytes_of(n),
    decreases n,
{
    if n >= 10 {
        push_dec(out, n / 10);
    }
    out.push(48 + (n % 10) as u8);
    proof {
        if n < 10 {
            assert(old(out)@ + dec_bytes_of(n) =~= old(out)@.push((48 + n) as u8));
        } else {
            assert(old(out)@ + dec_bytes_of(n) =~= (old(out)@ + dec_bytes_of(n / 10)).push(
                (48 + n % 10) as u8,
            ));
        }
    }
}

} // verus!
