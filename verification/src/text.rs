//! Decimal rendering of counters, verified down to the characters produced.

use vstd::prelude::*;

verus! {

/// The ASCII byte of the decimal digit `d` (`d` is reduced modulo 10).
pub open spec fn digit_byte(d: nat) -> u8 {
    (48 + d % 10) as u8
}

/// The ASCII bytes of the decimal representation of `n`, most significant
/// digit first, with no leading zeros (a single `0` for zero itself).
pub open spec fn dec_bytes(n: nat) -> Seq<u8>
    decreases n,
{
    if n < 10 {
        seq![digit_byte(n)]
    } else {
        dec_bytes(n / 10).push(digit_byte(n % 10))
    }
}

/// The characters of a sequence of ASCII bytes.
pub open spec fn ascii_chars(bytes: Seq<u8>) -> Seq<char> {
    bytes.map_values(|b: u8| b as char)
}

/// The decimal representation of `n` as characters.
pub open spec fn dec_chars(n: nat) -> Seq<char> {
    ascii_chars(dec_bytes(n))
}

/// Three ASCII digits: `n` modulo 1000, zero padded.
pub open spec fn pad3_bytes(n: nat) -> Seq<u8> {
    seq![digit_byte(n / 100), digit_byte(n / 10), digit_byte(n)]
}

/// The zero-padded three-digit representation of `n` as characters.
pub open spec fn pad3_chars(n: nat) -> Seq<char> {
    ascii_chars(pad3_bytes(n))
}

/// Every byte of a decimal representation is an ASCII digit.
pub proof fn lemma_dec_bytes_ascii(n: nat)
    ensures
        forall|i: int| 0 <= i < dec_bytes(n).len() ==> 48 <= #[trigger] dec_bytes(n)[i] <= 57,
    decreases n,
{
    if n >= 10 {
        lemma_dec_bytes_ascii(n / 10);
        let prefix = dec_bytes(n / 10);
        assert forall|i: int| 0 <= i < dec_bytes(n).len() implies 48 <= #[trigger] dec_bytes(
            n,
        )[i] <= 57 by {
            if i < prefix.len() {
                assert(dec_bytes(n)[i] == prefix[i]);
            } else {
                assert(dec_bytes(n)[i] == digit_byte(n % 10));
            }
        }
    }
}

/// Relies on `String::from_utf8`: a buffer of ASCII bytes decodes to the
/// string whose characters are exactly those bytes.
#[verifier::external_body]
pub fn ascii_to_string(bytes: Vec<u8>) -> (s: String)
    requires
        forall|i: int| 0 <= i < bytes@.len() ==> bytes@[i] < 128,
    ensures
        s@ == ascii_chars(bytes@),
{
    String::from_utf8(bytes).unwrap_or_default()
}

/// Appends the decimal digits of `n` to `buf`.
pub fn push_dec_bytes(buf: &mut Vec<u8>, n: u64)
    ensures
        final(buf)@ == old(buf)@ + dec_bytes(n as nat),
    decreases n,
{
    if n >= 10 {
        push_dec_bytes(buf, n / 10);
    }
    buf.push(48 + (n % 10) as u8);
    proof {
        if n < 10 {
            assert(final(buf)@ =~= old(buf)@ + dec_bytes(n as nat));
        } else {
            assert(final(buf)@ =~= old(buf)@ + dec_bytes(n as nat));
        }
    }
}

/// Renders `n` in decimal.
pub fn u64_to_string(n: u64) -> (s: String)
    ensures
        s@ == dec_chars(n as nat),
{
    let mut buf: Vec<u8> = Vec::new();
    push_dec_bytes(&mut buf, n);
    proof {
        lemma_dec_bytes_ascii(n as nat);
        assert(buf@ =~= dec_bytes(n as nat));
    }
    ascii_to_string(buf)
}

/// Renders `n` (below 1000) as exactly three zero-padded decimal digits.
pub fn pad3_to_string(n: u64) -> (s: String)
    requires
        n < 1000,
    ensures
        s@ == pad3_chars(n as nat),
{
    let mut buf: Vec<u8> = Vec::new();
    buf.push(48 + (n / 100 % 10) as u8);
    buf.push(48 + (n / 10 % 10) as u8);
    buf.push(48 + (n % 10) as u8);
    proof {
        assert(buf@ =~= pad3_bytes(n as nat));
    }
    ascii_to_string(buf)
}

} // verus!
