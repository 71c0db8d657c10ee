//! Hexadecimal and URL-safe base 64 text, as the crates `hex` and
//! `base64_url` read and write them.
//!
//! Neither crate is verified here. Hexadecimal text is stated in full; what
//! `base64_url` gives is only given a name.

use base64_url::base64::DecodeError;
use vstd::prelude::*;

verus! {

#[verifier::external_type_specification]
#[verifier::external_body]
pub struct ExDecodeError(DecodeError);

/// The lower-case hexadecimal digit for `n`.
pub open spec fn hex_digit(n: nat) -> char {
    if n == 0 {
        '0'
    } else if n == 1 {
        '1'
    } else if n == 2 {
        '2'
    } else if n == 3 {
        '3'
    } else if n == 4 {
        '4'
    } else if n == 5 {
        '5'
    } else if n == 6 {
        '6'
    } else if n == 7 {
        '7'
    } else if n == 8 {
        '8'
    } else if n == 9 {
        '9'
    } else if n == 10 {
        'a'
    } else if n == 11 {
        'b'
    } else if n == 12 {
        'c'
    } else if n == 13 {
        'd'
    } else if n == 14 {
        'e'
    } else {
        'f'
    }
}

/// What a hexadecimal digit of either case is worth; `None` for any other
/// character.
pub open spec fn hex_digit_value(c: char) -> Option<nat> {
    if '0' <= c <= '9' {
        Some((c as u32 - '0' as u32) as nat)
    } else if 'a' <= c <= 'f' {
        Some((c as u32 - 'a' as u32 + 10) as nat)
    } else if 'A' <= c <= 'F' {
        Some((c as u32 - 'A' as u32 + 10) as nat)
    } else {
        None
    }
}

/// `bytes` in hexadecimal: two lower-case digits for each byte, the high half
/// first.
pub open spec fn hex_text(bytes: Seq<u8>) -> Seq<char> {
    Seq::new(
        2 * bytes.len(),
        |i: int|
            if i % 2 == 0 {
                hex_digit((bytes[i / 2] / 16) as nat)
            } else {
                hex_digit((bytes[i / 2] % 16) as nat)
            },
    )
}

/// The bytes that `text` writes in hexadecimal: `None` unless it is an even
/// number of hexadecimal digits.
pub open spec fn hex_bytes(text: Seq<char>) -> Option<Seq<u8>> {
    if text.len() % 2 == 0 && forall|i: int|
        0 <= i < text.len() ==> hex_digit_value(#[trigger] text[i]) is Some {
        Some(
            Seq::new(
                text.len() / 2,
                |i: int|
                    (16 * hex_digit_value(text[2 * i]).unwrap() + hex_digit_value(
                        text[2 * i + 1],
                    ).unwrap()) as u8,
            ),
        )
    } else {
        None
    }
}

/// The bytes that `text` decodes to as URL-safe base 64, as `base64_url` reads
/// it; `None` where it refuses `text`.
pub uninterp spec fn base64_url_bytes(text: Seq<char>) -> Option<Seq<u8>>;

/// `bytes` in URL-safe base 64, as `base64_url` writes it.
pub uninterp spec fn base64_url_text(bytes: Seq<u8>) -> Seq<char>;

/// `hex::encode`. Claimed of it: it writes each byte as two lower-case
/// hexadecimal digits, the high half first.
#[verifier::external_body]
pub(crate) fn hex_encode(bytes: &Vec<u8>) -> (text: String)
    ensures
        text@ == hex_text(bytes@),
{
    hex::encode(bytes)
}

/// `hex::decode`, with its error dropped. Claimed of it: it reads an even
/// number of hexadecimal digits of either case as the bytes they write, each
/// pair high half first, and refuses any other text.
#[verifier::external_body]
pub(crate) fn hex_decode(text: &str) -> (bytes: Option<Vec<u8>>)
    ensures
        bytes is Some <==> hex_bytes(text@) is Some,
        bytes matches Some(b) ==> Some(b@) == hex_bytes(text@),
{
    hex::decode(text).ok()
}

/// `base64_url::decode`. Claimed of it: whether it accepts `text`, and which
/// bytes it gives, depends on `text` alone.
#[verifier::external_body]
pub(crate) fn base64_url_decode(text: &str) -> (bytes: Result<Vec<u8>, DecodeError>)
    ensures
        bytes is Ok <==> base64_url_bytes(text@) is Some,
        bytes matches Ok(b) ==> Some(b@) == base64_url_bytes(text@),
{
    base64_url::decode(text)
}

/// `base64_url::encode`. Claimed of it: the text it gives depends on `bytes`
/// alone.
#[verifier::external_body]
pub(crate) fn base64_url_encode(bytes: &Vec<u8>) -> (text: String)
    ensures
        text@ == base64_url_text(bytes@),
{
    base64_url::encode(bytes)
}

/// Hexadecimal text reads back as the bytes it was written from.
pub proof fn lemma_hex_round_trip(bytes: Seq<u8>)
    ensures
        hex_bytes(hex_text(bytes)) == Some(bytes),
{
    let text = hex_text(bytes);
    assert forall|i: int| 0 <= i < text.len() implies hex_digit_value(
        #[trigger] text[i],
    ) is Some by {
        lemma_hex_digit_value((bytes[i / 2] / 16) as nat);
        lemma_hex_digit_value((bytes[i / 2] % 16) as nat);
    }
    let back = hex_bytes(text).unwrap();
    assert(back.len() == bytes.len());
    assert forall|i: int| 0 <= i < bytes.len() implies back[i] == bytes[i] by {
        lemma_hex_digit_value((bytes[i] / 16) as nat);
        lemma_hex_digit_value((bytes[i] % 16) as nat);
        assert((2 * i) / 2 == i && (2 * i + 1) / 2 == i);
        assert((2 * i) % 2 == 0 && (2 * i + 1) % 2 == 1);
    }
    assert(back =~= bytes);
}

/// A hexadecimal digit is worth the number it was written for.
pub proof fn lemma_hex_digit_value(n: nat)
    requires
        n < 16,
    ensures
        hex_digit_value(hex_digit(n)) == Some(n),
{
}

} // verus!
