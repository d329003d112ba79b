//! Hexadecimal text: what `hex::decode` accepts and returns, and what
//! `hex::encode` produces.
use vstd::prelude::*;

verus! {

/// `c` is a hexadecimal digit, in either case.
pub open spec fn is_hex_digit(c: char) -> bool {
    (48 <= c as int && c as int <= 57) || (97 <= c as int && c as int <= 102) || (65 <= c as int
        && c as int <= 70)
}

/// The value of the hexadecimal digit `c`.
pub open spec fn hex_value(c: char) -> int {
    if 48 <= c as int && c as int <= 57 {
        c as int - 48
    } else if 97 <= c as int && c as int <= 102 {
        c as int - 87
    } else {
        c as int - 55
    }
}

/// `s` is hexadecimal text: an even number of hexadecimal digits.
pub open spec fn is_hex_text(s: Seq<char>) -> bool {
    &&& s.len() % 2 == 0
    &&& forall|i: int| 0 <= i < s.len() ==> is_hex_digit(#[trigger] s[i])
}

/// The bytes that hexadecimal text `s` spells, two digits per byte, the
/// high half first.
pub open spec fn hex_bytes(s: Seq<char>) -> Seq<u8> {
    Seq::new(
        s.len() / 2,
        |i: int| (hex_value(s[2 * i]) * 16 + hex_value(s[2 * i + 1])) as u8,
    )
}

/// The lower-case hexadecimal digit of `d` (`d < 16`).
pub open spec fn lower_digit(d: int) -> char {
    if d < 10 {
        (d + 48) as char
    } else {
        (d + 87) as char
    }
}

/// The lower-case hexadecimal text of `bytes`: two digits per byte, the high
/// half first.
pub open spec fn lower_hex(bytes: Seq<u8>) -> Seq<char> {
    Seq::new(
        2 * bytes.len(),
        |i: int|
            if i % 2 == 0 {
                lower_digit(bytes[i / 2] as int / 16)
            } else {
                lower_digit(bytes[i / 2] as int % 16)
            },
    )
}

/// Calls `hex::decode` on the UTF-8 bytes of `s`. Its source
/// (`FromHex for Vec<u8>`) fails on an odd byte length and on any byte that
/// is not `0-9`, `a-f` or `A-F` (so on any non-ASCII character), and
/// otherwise turns each pair of digits into one byte, the first digit giving
/// the high half. Claims exactly that, over the characters of `s`.
#[verifier::external_body]
pub(crate) fn hex_decode(s: &str) -> (r: Option<Vec<u8>>)
    ensures
        r is Some <==> is_hex_text(s@),
        r matches Some(bytes) ==> bytes@ == hex_bytes(s@),
{
    ::hex::decode(s).ok()
}

/// Calls `hex::encode`, which writes each byte as two lower-case digits from
/// `0123456789abcdef`, the high half first (its `BytesToHexChars`). Claims
/// exactly that.
#[verifier::external_body]
pub(crate) fn hex_encode(bytes: &[u8]) -> (s: String)
    ensures
        s@ == lower_hex(bytes@),
{
    ::hex::encode(bytes)
}

proof fn lemma_lower_digit_value(d: int)
    requires
        0 <= d < 16,
    ensures
        is_hex_digit(lower_digit(d)),
        hex_value(lower_digit(d)) == d,
{
}

/// Lower-case hexadecimal text is hexadecimal text, twice as long as the
/// bytes, and it spells those bytes back.
pub proof fn lemma_lower_hex_round_trip(bytes: Seq<u8>)
    ensures
        is_hex_text(lower_hex(bytes)),
        lower_hex(bytes).len() == 2 * bytes.len(),
        hex_bytes(lower_hex(bytes)) == bytes,
{
    let s = lower_hex(bytes);
    assert forall|i: int| 0 <= i < s.len() implies is_hex_digit(#[trigger] s[i]) by {
        lemma_lower_digit_value(bytes[i / 2] as int / 16);
        lemma_lower_digit_value(bytes[i / 2] as int % 16);
    }
    assert forall|k: int| 0 <= k < bytes.len() implies #[trigger] hex_bytes(s)[k] == bytes[k] by {
        assert((2 * k) / 2 == k && (2 * k) % 2 == 0);
        assert((2 * k + 1) / 2 == k && (2 * k + 1) % 2 == 1);
        lemma_lower_digit_value(bytes[k] as int / 16);
        lemma_lower_digit_value(bytes[k] as int % 16);
    }
    assert(hex_bytes(s) =~= bytes);
}

} // verus!
