//! Lower-case hexadecimal text for digests, as the persisted document holds it.
use vstd::prelude::*;

verus! {

/// The character that stands for a value below sixteen: `0`-`9`, then `a`-`f`.
pub open spec fn hex_digit(n: int) -> char {
    seq!['0', '1', '2', '3', '4', '5', '6', '7', '8', '9', 'a', 'b', 'c', 'd', 'e', 'f'][n]
}

/// Two lower-case digits for each byte, the high half first.
pub open spec fn hex_text(b: Seq<u8>) -> Seq<char> {
    Seq::new(
        2 * b.len(),
        |i: int|
            if i % 2 == 0 {
                hex_digit(b[i / 2] as int / 16)
            } else {
                hex_digit(b[i / 2] as int % 16)
            },
    )
}

/// Whether a character is a hexadecimal digit, in either case.
pub open spec fn is_hex_char(c: char) -> bool {
    ('0' <= c && c <= '9') || ('a' <= c && c <= 'f') || ('A' <= c && c <= 'F')
}

/// The value of a hexadecimal digit.
pub open spec fn hex_value(c: char) -> int {
    if '0' <= c && c <= '9' {
        c as int - '0' as int
    } else if 'a' <= c && c <= 'f' {
        c as int - 'a' as int + 10
    } else {
        c as int - 'A' as int + 10
    }
}

/// Text that decodes: an even number of hexadecimal digits.
pub open spec fn is_hex_text(s: Seq<char>) -> bool {
    &&& s.len() % 2 == 0
    &&& forall|i: int| 0 <= i < s.len() ==> #[trigger] is_hex_char(s[i])
}

/// The bytes that hexadecimal text stands for, one for each pair of digits.
pub open spec fn hex_bytes(s: Seq<char>) -> Seq<u8> {
    Seq::new(s.len() / 2, |i: int| (hex_value(s[2 * i]) * 16 + hex_value(s[2 * i + 1])) as u8)
}

#[verifier::external_type_specification]
#[verifier::external_body]
pub struct ExFromHexError(hex::FromHexError);

/// Relies on hex::encode: two lower-case digits for each byte, in order.
#[verifier::external_body]
fn hex_encode(b: &[u8]) -> (r: String)
    ensures
        r@ == hex_text(b@),
{
    hex::encode(b)
}

/// Relies on hex::decode: it takes an even number of digits of either case and
/// gives one byte for each pair; anything else is an error.
#[verifier::external_body]
fn hex_decode(s: &str) -> (r: Result<Vec<u8>, hex::FromHexError>)
    ensures
        r is Ok <==> is_hex_text(s@),
        r is Ok ==> r->Ok_0@ == hex_bytes(s@),
{
    hex::decode(s)
}

/// Renders bytes as lower-case hexadecimal text.
pub fn encode_hex(b: &[u8]) -> (r: String)
    ensures
        r@ == hex_text(b@),
{
    hex_encode(b)
}

/// Reads hexadecimal text of either case back into bytes.
pub fn decode_hex(s: &str) -> (r: Option<Vec<u8>>)
    ensures
        r is Some <==> is_hex_text(s@),
        r is Some ==> r->Some_0@ == hex_bytes(s@),
{
    match hex_decode(s) {
        Ok(v) => Some(v),
        Err(_) => None,
    }
}

/// Reads a digest of `width` bytes from its hexadecimal text: `None` where the
/// text is not hexadecimal or stands for another number of bytes.
pub fn digest_from_hex(s: &str, width: usize) -> (r: Option<Vec<u8>>)
    ensures
        r is Some <==> (is_hex_text(s@) && hex_bytes(s@).len() == width),
        r is Some ==> r->Some_0@ == hex_bytes(s@),
{
    match decode_hex(s) {
        Some(v) => {
            if v.len() == width {
                Some(v)
            } else {
                None
            }
        },
        None => None,
    }
}

proof fn lemma_digit_value(n: int)
    requires
        0 <= n < 16,
    ensures
        is_hex_char(hex_digit(n)),
        hex_value(hex_digit(n)) == n,
{
    let digits = seq!['0', '1', '2', '3', '4', '5', '6', '7', '8', '9', 'a', 'b', 'c', 'd', 'e', 'f'];
    assert(hex_digit(n) == digits[n]);
}

/// Hexadecimal text of any bytes decodes back to exactly those bytes, and to
/// as many of them.
pub proof fn lemma_hex_round_trip(b: Seq<u8>)
    ensures
        is_hex_text(hex_text(b)),
        hex_bytes(hex_text(b)) == b,
        hex_bytes(hex_text(b)).len() == b.len(),
{
    let t = hex_text(b);
    assert forall|i: int| 0 <= i < t.len() implies #[trigger] is_hex_char(t[i]) by {
        if i % 2 == 0 {
            lemma_digit_value(b[i / 2] as int / 16);
        } else {
            lemma_digit_value(b[i / 2] as int % 16);
        }
    }
    assert forall|i: int| 0 <= i < b.len() implies #[trigger] hex_bytes(t)[i] == b[i] by {
        lemma_digit_value(b[i] as int / 16);
        lemma_digit_value(b[i] as int % 16);
        assert(t[2 * i] == hex_digit(b[i] as int / 16));
        assert(t[2 * i + 1] == hex_digit(b[i] as int % 16));
    }
    assert(hex_bytes(t) =~= b);
}

} // verus!
