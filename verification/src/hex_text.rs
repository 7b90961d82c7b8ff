//! Lower-case hexadecimal text of bytes, as `hex::encode` writes it.

use vstd::prelude::*;

verus! {

/// The lower-case hex digit of a value below 16.
pub open spec fn hex_digit(n: int) -> char {
    if n < 10 {
        (48 + n) as char
    } else {
        (87 + n) as char
    }
}

/// Two lower-case hex digits per byte, high nibble first.
pub open spec fn hex_lower(bytes: Seq<u8>) -> Seq<char>
    decreases bytes.len(),
{
    if bytes.len() == 0 {
        Seq::empty()
    } else {
        seq![hex_digit(bytes[0] as int / 16), hex_digit(bytes[0] as int % 16)] + hex_lower(
            bytes.drop_first(),
        )
    }
}

/// `text` behind the prefix `0x`.
pub open spec fn prefixed(text: Seq<char>) -> Seq<char> {
    seq!['0', 'x'] + text
}

/// The bytes as lower-case hex behind the prefix `0x`.
pub open spec fn prefixed_hex(bytes: Seq<u8>) -> Seq<char> {
    prefixed(hex_lower(bytes))
}

/// The sixteen hex digits are `0`-`9` and then `a`-`f`, lower case.
pub proof fn lemma_hex_digits()
    ensures
        hex_digit(0) == '0',
        hex_digit(1) == '1',
        hex_digit(2) == '2',
        hex_digit(3) == '3',
        hex_digit(4) == '4',
        hex_digit(5) == '5',
        hex_digit(6) == '6',
        hex_digit(7) == '7',
        hex_digit(8) == '8',
        hex_digit(9) == '9',
        hex_digit(10) == 'a',
        hex_digit(11) == 'b',
        hex_digit(12) == 'c',
        hex_digit(13) == 'd',
        hex_digit(14) == 'e',
        hex_digit(15) == 'f',
{
}

/// The hex text of bytes has two digits per byte, in the order of the
/// bytes, the high nibble first; the prefixed text puts `0x` before them.
pub proof fn lemma_hex_text_digits(bytes: Seq<u8>)
    ensures
        hex_lower(bytes).len() == 2 * bytes.len(),
        forall|i: int|
            0 <= i < bytes.len() ==> hex_lower(bytes)[2 * i] == hex_digit(
                #[trigger] bytes[i] as int / 16,
            ) && hex_lower(bytes)[2 * i + 1] == hex_digit(bytes[i] as int % 16),
        prefixed_hex(bytes).len() == 2 + 2 * bytes.len(),
        prefixed_hex(bytes)[0] == '0',
        prefixed_hex(bytes)[1] == 'x',
        forall|k: int| 0 <= k < hex_lower(bytes).len() ==> prefixed_hex(bytes)[k + 2] == #[trigger] hex_lower(bytes)[k],
    decreases bytes.len(),
{
    if bytes.len() > 0 {
        let rest = bytes.drop_first();
        lemma_hex_text_digits(rest);
        assert forall|i: int| 0 <= i < bytes.len() implies hex_lower(bytes)[2 * i] == hex_digit(
            #[trigger] bytes[i] as int / 16,
        ) && hex_lower(bytes)[2 * i + 1] == hex_digit(bytes[i] as int % 16) by {
            if i > 0 {
                assert(bytes[i] == rest[i - 1]);
                assert(2 * i == 2 + 2 * (i - 1));
            }
        }
    }
}

/// `hex::encode`: two lower-case hex digits per byte, high nibble first.
#[verifier::external_body]
fn hex_encode(bytes: &[u8]) -> (s: String)
    ensures
        s@ == hex_lower(bytes@),
{
    hex::encode(bytes)
}

/// `text` behind the prefix `0x`.
pub(crate) fn prefix_0x(text: &str) -> (s: String)
    ensures
        s@ == prefixed(text@),
{
    let mut s = String::from_str("0x");
    proof {
        reveal_strlit("0x");
    }
    s.append(text);
    s
}

/// The bytes as lower-case hex behind the prefix `0x`.
pub(crate) fn hex_string(bytes: &[u8]) -> (s: String)
    ensures
        s@ == prefixed_hex(bytes@),
{
    let digits = hex_encode(bytes);
    prefix_0x(digits.as_str())
}

} // verus!
