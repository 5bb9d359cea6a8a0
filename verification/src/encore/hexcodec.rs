//! Hexadecimal text as the `hex` crate reads and writes it, and the replacing of byte
//! patterns as `bstr` does it.

use crate::text::hex_text;
use bstr::ByteSlice;
use hex::FromHexError;
use vstd::prelude::*;

verus! {

/// Why the `hex` crate refused a text.
#[verifier::external_type_specification]
#[verifier::external_body]
pub struct ExFromHexError(FromHexError);

/// The value of a hexadecimal digit, of either case.
pub open spec fn hex_digit_value(c: u8) -> Option<int> {
    if 48 <= c <= 57 {
        Some(c - 48)
    } else if 97 <= c <= 102 {
        Some(c - 97 + 10)
    } else if 65 <= c <= 70 {
        Some(c - 65 + 10)
    } else {
        None
    }
}

/// Whether a text is hexadecimal: an even number of hexadecimal digits.
pub open spec fn is_hex_text(text: Seq<u8>) -> bool {
    &&& text.len() % 2 == 0
    &&& forall|i: int| 0 <= i < text.len() ==> hex_digit_value(#[trigger] text[i]) is Some
}

/// The bytes that a hexadecimal text stands for: one for every two digits.
pub open spec fn hex_value(text: Seq<u8>) -> Seq<u8> {
    Seq::new(
        text.len() / 2,
        |i: int|
            (16 * hex_digit_value(text[2 * i]).unwrap() + hex_digit_value(
                text[2 * i + 1],
            ).unwrap()) as u8,
    )
}

/// The haystack with every match of the needle replaced, matches being taken from left to
/// right and never overlapping. An empty needle matches before every byte and at the end.
pub open spec fn replaced(haystack: Seq<u8>, needle: Seq<u8>, replacement: Seq<u8>) -> Seq<u8>
    decreases haystack.len(),
{
    if needle.len() == 0 {
        if haystack.len() == 0 {
            replacement
        } else {
            replacement + seq![haystack[0]] + replaced(haystack.skip(1), needle, replacement)
        }
    } else if haystack.len() < needle.len() {
        haystack
    } else if haystack.take(needle.len() as int) == needle {
        replacement + replaced(haystack.skip(needle.len() as int), needle, replacement)
    } else {
        seq![haystack[0]] + replaced(haystack.skip(1), needle, replacement)
    }
}

/// Calls `hex::decode`. Trusted: a text is accepted exactly if it has an even number of
/// hexadecimal digits of either case, and then every two digits give one byte.
#[verifier::external_body]
pub(crate) fn hex_decode(text: &[u8]) -> (r: Result<Vec<u8>, FromHexError>)
    ensures
        r is Ok <==> is_hex_text(text@),
        r matches Ok(bytes) ==> bytes@ == hex_value(text@),
{
    hex::decode(text)
}

/// Calls `hex::encode`. Trusted: every byte gives two lowercase hexadecimal digits.
#[verifier::external_body]
pub(crate) fn hex_encode_lower(data: &[u8]) -> (text: Vec<u8>)
    ensures
        text@ == hex_text(data@, false),
{
    hex::encode(data).into_bytes()
}

/// Calls `hex::encode_upper`. Trusted: every byte gives two uppercase hexadecimal digits.
#[verifier::external_body]
pub(crate) fn hex_encode_upper(data: &[u8]) -> (text: Vec<u8>)
    ensures
        text@ == hex_text(data@, true),
{
    hex::encode_upper(data).into_bytes()
}

/// Calls `bstr::ByteSlice::replace`. Trusted: all non-overlapping matches of the needle,
/// found from left to right, are replaced.
#[verifier::external_body]
pub(crate) fn replace_all(haystack: &[u8], needle: &[u8], replacement: &[u8]) -> (out: Vec<u8>)
    ensures
        out@ == replaced(haystack@, needle@, replacement@),
{
    haystack.replace(needle, replacement)
}

} // verus!
