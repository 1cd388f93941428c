//! ASCII building blocks for the generated text fields.

use vstd::prelude::*;

verus! {

/// Whether a byte is an ASCII digit or lowercase letter.
pub open spec fn is_lower_alnum_byte(b: u8) -> bool {
    (48 <= b && b <= 57) || (97 <= b && b <= 122)
}

/// The ASCII-lowercase image of a byte: uppercase letters move down
/// into the lowercase range, everything else stays.
pub open spec fn to_lower_byte(b: u8) -> u8 {
    if 65 <= b && b <= 90 {
        (b + 32) as u8
    } else {
        b
    }
}

/// Lowers an ASCII uppercase letter; leaves any other byte alone.
pub fn ascii_to_lower(b: u8) -> (r: u8)
    ensures
        r == to_lower_byte(b),
{
    if 65 <= b && b <= 90 {
        b + 32
    } else {
        b
    }
}

/// The characters that a sequence of ASCII bytes decodes to, one
/// character per byte.
pub open spec fn chars_of_bytes(s: Seq<u8>) -> Seq<char> {
    s.map_values(|b: u8| b as char)
}

/// Relies on String::from_utf8: bytes below 128 are valid UTF-8 and
/// decode to one character of the same code each.
#[verifier::external_body]
pub(crate) fn string_from_ascii(bytes: Vec<u8>) -> (s: String)
    requires
        forall|i: int| 0 <= i < bytes@.len() ==> bytes@[i] < 128,
    ensures
        s@ == chars_of_bytes(bytes@),
{
    String::from_utf8(bytes).unwrap()
}

/// The decimal digits of a nonnegative number, most significant first,
/// as ASCII bytes.
pub open spec fn dec_bytes(n: int) -> Seq<u8>
    recommends
        n >= 0,
    decreases n,
{
    if n < 10 {
        seq![(n + 48) as u8]
    } else {
        dec_bytes(n / 10) + seq![(n % 10 + 48) as u8]
    }
}

/// The last `width` decimal digits of a nonnegative number, as ASCII
/// bytes, zero-padded on the left.
pub open spec fn frac_bytes(n: int, width: nat) -> Seq<u8>
    recommends
        n >= 0,
    decreases width,
{
    if width == 0 {
        Seq::empty()
    } else {
        frac_bytes(n / 10, (width - 1) as nat).push((n % 10 + 48) as u8)
    }
}

/// Every byte of a rendered number is an ASCII digit.
pub proof fn lemma_dec_bytes_digits(n: int)
    requires
        n >= 0,
    ensures
        forall|i: int| 0 <= i < dec_bytes(n).len() ==> 48 <= #[trigger] dec_bytes(n)[i] <= 57,
    decreases n,
{
    if n >= 10 {
        lemma_dec_bytes_digits(n / 10);
        assert forall|i: int| 0 <= i < dec_bytes(n).len() implies 48 <= #[trigger] dec_bytes(
            n,
        )[i] <= 57 by {
            if i < dec_bytes(n / 10).len() {
                assert(dec_bytes(n)[i] == dec_bytes(n / 10)[i]);
            } else {
                assert(dec_bytes(n)[i] == (n % 10 + 48) as u8);
            }
        }
    } else {
        assert(dec_bytes(n)[0] == (n + 48) as u8);
    }
}

/// Every byte of a zero-padded fraction is an ASCII digit.
pub proof fn lemma_frac_bytes_digits(n: int, width: nat)
    requires
        n >= 0,
    ensures
        forall|i: int|
            0 <= i < frac_bytes(n, width).len() ==> 48 <= #[trigger] frac_bytes(n, width)[i]
                <= 57,
    decreases width,
{
    if width > 0 {
        lemma_frac_bytes_digits(n / 10, (width - 1) as nat);
        assert forall|i: int| 0 <= i < frac_bytes(n, width).len() implies 48
            <= #[trigger] frac_bytes(n, width)[i] <= 57 by {
            let rest = frac_bytes(n / 10, (width - 1) as nat);
            if i < rest.len() {
                assert(frac_bytes(n, width)[i] == rest[i]);
            } else {
                assert(frac_bytes(n, width)[i] == (n % 10 + 48) as u8);
            }
        }
    }
}

/// Appends the decimal digits of a number.
pub fn push_decimal(out: &mut Vec<u8>, n: u64)
    ensures
        final(out)@ == old(out)@ + dec_bytes(n as int),
    decreases n,
{
    if n >= 10 {
        push_decimal(out, n / 10);
        out.push((n % 10) as u8 + 48);
        assert(out@ =~= old(out)@ + dec_bytes(n as int));
    } else {
        out.push(n as u8 + 48);
        assert(out@ =~= old(out)@ + dec_bytes(n as int));
    }
}

/// Appends the last `width` decimal digits of a number, zero-padded.
pub fn push_fraction(out: &mut Vec<u8>, n: u64, width: usize)
    ensures
        final(out)@ == old(out)@ + frac_bytes(n as int, width as nat),
    decreases width,
{
    if width > 0 {
        push_fraction(out, n / 10, width - 1);
        out.push((n % 10) as u8 + 48);
        assert(out@ =~= old(out)@ + frac_bytes(n as int, width as nat));
    } else {
        assert(out@ =~= old(out)@ + frac_bytes(n as int, width as nat));
    }
}

} // verus!
