//! Hex encoding and decoding of wallet-state blobs.
//!
//! The store keeps each wallet state as a hex string. The spec
//! functions below pin the encoding down exactly, and two trusted
//! wrappers tie `hex::encode` and `hex::decode` to them.

use vstd::prelude::*;

verus! {

/// The lowercase hex digit for a value below sixteen.
pub open spec fn hex_digit_char(n: u8) -> char {
    if n == 0 {
        '0'
    } else if n == 1 {
        '1'
    } else if n == 2 {
        '2'
    } else if n == 3 {
        '3'
    } else if n == 4 {
        '4'
    } else if n == 5 {
        '5'
    } else if n == 6 {
        '6'
    } else if n == 7 {
        '7'
    } else if n == 8 {
        '8'
    } else if n == 9 {
        '9'
    } else if n == 10 {
        'a'
    } else if n == 11 {
        'b'
    } else if n == 12 {
        'c'
    } else if n == 13 {
        'd'
    } else if n == 14 {
        'e'
    } else {
        'f'
    }
}

/// A character that `hex::decode` accepts: either case is valid.
pub open spec fn is_hex_digit(c: char) -> bool {
    (48 <= c as u32 && c as u32 <= 57)  // '0' ..= '9'
    || (97 <= c as u32 && c as u32 <= 102)  // 'a' ..= 'f'
    || (65 <= c as u32 && c as u32 <= 70)  // 'A' ..= 'F'
}

/// The value of one hex digit.
pub open spec fn hex_digit_val(c: char) -> u8 {
    if 48 <= c as u32 && c as u32 <= 57 {
        (c as u32 - 48) as u8
    } else if 97 <= c as u32 && c as u32 <= 102 {
        (c as u32 - 87) as u8
    } else {
        (c as u32 - 55) as u8
    }
}

/// The lowercase hex string of a byte sequence, two digits per byte.
pub open spec fn hex_of(b: Seq<u8>) -> Seq<char>
    decreases b.len(),
{
    if b.len() == 0 {
        Seq::empty()
    } else {
        seq![hex_digit_char(b[0] / 16), hex_digit_char(b[0] % 16)] + hex_of(b.drop_first())
    }
}

/// What `hex::decode` accepts: an even number of hex digits.
pub open spec fn is_valid_hex(s: Seq<char>) -> bool {
    s.len() % 2 == 0 && forall|i: int| 0 <= i < s.len() ==> is_hex_digit(#[trigger] s[i])
}

/// The byte sequence a valid hex string stands for.
pub open spec fn bytes_of_hex(s: Seq<char>) -> Seq<u8>
    decreases s.len(),
{
    if s.len() < 2 {
        Seq::empty()
    } else {
        seq![(hex_digit_val(s[0]) * 16 + hex_digit_val(s[1])) as u8] + bytes_of_hex(s.skip(2))
    }
}

/// Encoding a value below sixteen yields a digit that decodes back to it.
proof fn lemma_hex_digit_round_trip(n: u8)
    requires
        n < 16,
    ensures
        is_hex_digit(hex_digit_char(n)),
        hex_digit_val(hex_digit_char(n)) == n,
{
}

/// Decoding inverts encoding: the hex string of any byte sequence is
/// valid, and its bytes are the original sequence.
pub proof fn lemma_hex_round_trip(b: Seq<u8>)
    ensures
        is_valid_hex(hex_of(b)),
        bytes_of_hex(hex_of(b)) == b,
    decreases b.len(),
{
    if b.len() == 0 {
        assert(bytes_of_hex(hex_of(b)) =~= b);
    } else {
        let rest = b.drop_first();
        lemma_hex_round_trip(rest);
        let hi = b[0] / 16;
        let lo = b[0] % 16;
        lemma_hex_digit_round_trip(hi);
        lemma_hex_digit_round_trip(lo);
        let s = hex_of(b);
        assert(s == seq![hex_digit_char(hi), hex_digit_char(lo)] + hex_of(rest));
        assert(s.skip(2) =~= hex_of(rest));
        assert forall|i: int| 0 <= i < s.len() implies is_hex_digit(#[trigger] s[i]) by {
            if i >= 2 {
                assert(s[i] == hex_of(rest)[i - 2]);
            }
        }
        assert(hex_digit_val(s[0]) * 16 + hex_digit_val(s[1]) == b[0]);
        assert(bytes_of_hex(s) =~= b);
    }
}

/// Relies on `hex::encode`: it returns the lowercase hex string of the
/// input bytes, two digits per byte, in order.
#[verifier::external_body]
pub(crate) fn hex_encode(bytes: &[u8]) -> (r: String)
    ensures
        r@ == hex_of(bytes@),
{
    hex::encode(bytes)
}

/// Relies on `hex::decode`: it accepts exactly the even-length strings
/// of hex digits (either case) and returns the bytes they stand for.
#[verifier::external_body]
pub(crate) fn hex_decode(s: &str) -> (r: Option<Vec<u8>>)
    ensures
        r is Some <==> is_valid_hex(s@),
        r matches Some(v) ==> v@ == bytes_of_hex(s@),
{
    hex::decode(s).ok()
}

} // verus!
