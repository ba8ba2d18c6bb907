//! Hex encoding and decoding of byte strings, as used for the `sender`
//! and `signature` fields of a transfer.
//!
//! The mathematical form of both directions is stated exactly:
//! `hex_bytes` / `hex_encode_text` are ordinary spec functions, and the
//! round-trip law `lemma_hex_round_trip` is proved from them.

use vstd::prelude::*;

verus! {

/// A character that the decoder accepts: hex digits in either case.
pub open spec fn is_hex_digit(c: char) -> bool {
    ('0' <= c && c <= '9') || ('a' <= c && c <= 'f') || ('A' <= c && c <= 'F')
}

/// Numeric value of a hex digit.
pub open spec fn hex_val(c: char) -> nat {
    if '0' <= c && c <= '9' {
        (c as nat - '0' as nat) as nat
    } else if 'a' <= c && c <= 'f' {
        (c as nat - 'a' as nat + 10) as nat
    } else if 'A' <= c && c <= 'F' {
        (c as nat - 'A' as nat + 10) as nat
    } else {
        0
    }
}

/// The lowercase hex digit for a value below 16.
pub open spec fn hex_digit_char(v: nat) -> char {
    if v == 0 { '0' } else if v == 1 { '1' } else if v == 2 { '2' }
    else if v == 3 { '3' } else if v == 4 { '4' } else if v == 5 { '5' }
    else if v == 6 { '6' } else if v == 7 { '7' } else if v == 8 { '8' }
    else if v == 9 { '9' } else if v == 10 { 'a' } else if v == 11 { 'b' }
    else if v == 12 { 'c' } else if v == 13 { 'd' } else if v == 14 { 'e' }
    else { 'f' }
}

/// A string that decodes successfully: even length, hex digits throughout.
pub open spec fn hex_ok(s: Seq<char>) -> bool {
    &&& s.len() % 2 == 0
    &&& forall|i: int| 0 <= i < s.len() ==> is_hex_digit(s[i])
}

/// The bytes a well-formed hex string decodes to.
pub open spec fn hex_bytes(s: Seq<char>) -> Seq<u8> {
    Seq::new(s.len() / 2, |i: int| (hex_val(s[2 * i]) * 16 + hex_val(s[2 * i + 1])) as u8)
}

/// The lowercase hex encoding of a byte string.
pub open spec fn hex_encode_text(b: Seq<u8>) -> Seq<char>
    decreases b.len(),
{
    if b.len() == 0 {
        Seq::empty()
    } else {
        hex_encode_text(b.drop_last())
            + seq![hex_digit_char(b.last() as nat / 16), hex_digit_char(b.last() as nat % 16)]
    }
}

/// Relies on hex::decode: accepts exactly the even-length strings of hex
/// digits (either case) and returns the decoded bytes, high digit first.
#[verifier::external_body]
pub(crate) fn hex_decode(s: &str) -> (r: Option<Vec<u8>>)
    ensures
        (r is Some) <==> hex_ok(s@),
        r matches Some(b) ==> b@ == hex_bytes(s@),
{
    hex::decode(s).ok()
}

/// Relies on hex::encode: two lowercase hex digits for each byte,
/// in input order.
#[verifier::external_body]
pub(crate) fn hex_encode(b: &[u8]) -> (r: String)
    ensures
        r@ == hex_encode_text(b@),
{
    hex::encode(b)
}

/// A hex digit below 16 round-trips through its character.
proof fn lemma_hex_digit_round_trip(v: nat)
    requires
        v < 16,
    ensures
        is_hex_digit(hex_digit_char(v)),
        hex_val(hex_digit_char(v)) == v,
{
}

/// Encoding any byte string yields a well-formed hex string that decodes
/// back to the same bytes.
pub proof fn lemma_hex_round_trip(b: Seq<u8>)
    ensures
        hex_ok(hex_encode_text(b)),
        hex_bytes(hex_encode_text(b)) == b,
    decreases b.len(),
{
    if b.len() == 0 {
        assert(hex_bytes(hex_encode_text(b)) =~= b);
    } else {
        let pre = b.drop_last();
        let e = hex_encode_text(b);
        lemma_hex_round_trip(pre);
        let hi = b.last() as nat / 16;
        let lo = b.last() as nat % 16;
        lemma_hex_digit_round_trip(hi);
        lemma_hex_digit_round_trip(lo);
        assert(e == hex_encode_text(pre) + seq![hex_digit_char(hi), hex_digit_char(lo)]);
        assert(e.len() == 2 * pre.len() + 2);
        assert forall|i: int| 0 <= i < e.len() implies is_hex_digit(e[i]) by {
            if i < 2 * pre.len() {
                assert(e[i] == hex_encode_text(pre)[i]);
            }
        }
        let n = pre.len() as int;
        assert(hex_val(e[2 * n]) * 16 + hex_val(e[2 * n + 1]) == b.last()) by {
            assert(hi * 16 + lo == b.last());
        }
        assert(hex_bytes(e) =~= b) by {
            assert forall|i: int| 0 <= i < b.len() implies hex_bytes(e)[i] == b[i] by {
                if i < pre.len() {
                    assert(e[2 * i] == hex_encode_text(pre)[2 * i]);
                    assert(e[2 * i + 1] == hex_encode_text(pre)[2 * i + 1]);
                    assert(hex_bytes(hex_encode_text(pre))[i] == pre[i]);
                    assert(pre[i] == b[i]);
                } else {
                    assert(i == pre.len());
                }
            }
        }
    }
}

} // verus!
