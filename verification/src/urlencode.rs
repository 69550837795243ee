//! Percent-encoding of query values through the `urlencoding` crate.

use vstd::prelude::*;
use vstd::utf8::encode_utf8;

verus! {

/// Bytes that `urlencoding::encode` leaves as they are: ASCII letters,
/// digits, `-`, `.`, `_` and `~`.
pub open spec fn url_safe_byte(b: u8) -> bool {
    (48 <= b <= 57) || (65 <= b <= 90) || (97 <= b <= 122) || b == 45 || b == 46 || b == 95
        || b == 126
}

/// Upper-case hexadecimal digit for `d` (0 to 15).
pub open spec fn hex_upper(d: u8) -> char {
    if d < 10 {
        (d + 48) as char
    } else {
        (d + 55) as char
    }
}

/// Percent-encoding of a byte sequence: safe bytes are kept, every other
/// byte `b` becomes `%` and two upper-case hexadecimal digits.
pub open spec fn percent_encode(bytes: Seq<u8>) -> Seq<char>
    decreases bytes.len(),
{
    if bytes.len() == 0 {
        Seq::empty()
    } else {
        let b = bytes[0];
        let head = if url_safe_byte(b) {
            seq![b as char]
        } else {
            seq!['%', hex_upper(b / 16), hex_upper(b % 16)]
        };
        head + percent_encode(bytes.drop_first())
    }
}

/// `urlencoding::encode`: percent-encodes the UTF-8 bytes of `s`, keeping
/// ASCII letters, digits, `-`, `.`, `_` and `~`.
#[verifier::external_body]
pub(crate) fn encode(s: &str) -> (r: String)
    ensures
        r@ == percent_encode(encode_utf8(s@)),
{
    urlencoding::encode(s).into_owned()
}


/// Percent-encoding leaves a text of safe bytes as it is, and writes every
/// byte as at least one character.
pub proof fn percent_encode_law(bytes: Seq<u8>)
    ensures
        percent_encode(bytes).len() >= bytes.len(),
        (forall|i: int| 0 <= i < bytes.len() ==> url_safe_byte(#[trigger] bytes[i]))
            ==> percent_encode(bytes) == bytes.map_values(|b: u8| b as char),
        bytes.len() > 0 && !url_safe_byte(bytes[0]) ==> percent_encode(bytes)[0] == '%',
    decreases bytes.len(),
{
    if bytes.len() > 0 {
        let rest = bytes.drop_first();
        percent_encode_law(rest);
        if forall|i: int| 0 <= i < bytes.len() ==> url_safe_byte(#[trigger] bytes[i]) {
            assert forall|i: int| 0 <= i < rest.len() implies url_safe_byte(#[trigger] rest[i]) by {
                assert(rest[i] == bytes[i + 1]);
            }
            assert(url_safe_byte(bytes[0]));
            assert(percent_encode(bytes) =~= bytes.map_values(|b: u8| b as char));
        }
    } else {
        assert(percent_encode(bytes) =~= bytes.map_values(|b: u8| b as char));
    }
}

/// The hexadecimal digits written for a nibble are `0`-`9` and `A`-`F`.
pub proof fn hex_digits(d: u8)
    requires
        d < 16,
    ensures
        d < 10 ==> hex_upper(d) as u32 == 48 + d,
        d >= 10 ==> hex_upper(d) as u32 == 55 + d && 'A' <= hex_upper(d) <= 'F',
{
}

} // verus!
