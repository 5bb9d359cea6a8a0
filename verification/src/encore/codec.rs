//! The base-N encodings, as `data_encoding` defines them.

use crate::text::ascii_chars;
use crate::text::decimal_text;
use crate::text::lemma_decimal_text_shape;
use crate::text::push_ascii;
use crate::text::push_decimal;
use data_encoding::DecodeKind;
use data_encoding::BASE32HEX;
use data_encoding::BASE64;
use data_encoding::BASE64URL;
use data_encoding::BASE64URL_NOPAD;
use data_encoding::BASE64_MIME;
use data_encoding::BASE64_NOPAD;
use vstd::prelude::*;
use vstd::string::StringExecFns;

verus! {

/// The kind of a decoding failure.
#[derive(Debug, Clone, Copy, PartialEq, Eq, Structural)]
pub enum DecodeFailureKind {
    /// Invalid length.
    Length,
    /// Invalid symbol.
    Symbol,
    /// Non-zero trailing bits.
    Trailing,
    /// Invalid padding length.
    Padding,
}

/// A decoding failure: the first error that the decoder met.
#[derive(Debug, Clone, Copy, PartialEq, Eq, Structural)]
pub struct DecodeFailure {
    /// The position in the input at which the error was found.
    pub position: usize,
    /// The kind of the error.
    pub kind: DecodeFailureKind,
}

/// One of the encodings.
#[derive(Debug, Clone, Copy, PartialEq, Eq, Structural)]
pub enum Codec {
    /// Base 32 with the extended hexadecimal alphabet, padded.
    Base32Hex,
    /// Base 64 with the standard alphabet, padded.
    Base64,
    /// Base 64 with the standard alphabet, unpadded.
    Base64NoPad,
    /// Base 64 with the URL-safe alphabet, padded.
    Base64Url,
    /// Base 64 with the URL-safe alphabet, unpadded.
    Base64UrlNoPad,
    /// Base 64 as MIME writes it: padded and wrapped into lines.
    Base64Mime,
}

/// The longest input that the encoders lay out an output for.
pub const ENCODE_LIMIT: usize = usize::MAX / 512;

/// Whether an input is short enough to be encoded.
pub open spec fn encodable(input: Seq<u8>) -> bool {
    input.len() <= ENCODE_LIMIT
}

/// The text that an encoding makes of a byte string.
pub uninterp spec fn encoded(codec: Codec, input: Seq<u8>) -> Seq<u8>;

/// The byte string that a text stands for in an encoding, or the error that decoding it
/// meets first.
pub uninterp spec fn decoded(codec: Codec, input: Seq<u8>) -> Result<Seq<u8>, DecodeFailure>;

impl DecodeFailureKind {
    /// The words that describe the kind.
    pub open spec fn text(self) -> Seq<char> {
        match self {
            DecodeFailureKind::Length => "invalid length"@,
            DecodeFailureKind::Symbol => "invalid symbol"@,
            DecodeFailureKind::Trailing => "non-zero trailing bits"@,
            DecodeFailureKind::Padding => "invalid padding length"@,
        }
    }

    /// The words that describe the kind.
    pub fn as_str(&self) -> (text: &'static str)
        ensures
            text@ == self.text(),
    {
        match self {
            DecodeFailureKind::Length => "invalid length",
            DecodeFailureKind::Symbol => "invalid symbol",
            DecodeFailureKind::Trailing => "non-zero trailing bits",
            DecodeFailureKind::Padding => "invalid padding length",
        }
    }
}

impl DecodeFailure {
    /// The message of the failure, in the decoder's words: the description of its kind,
    /// ` at `, and its position in decimal.
    pub open spec fn message(self) -> Seq<char> {
        self.kind.text() + " at "@ + ascii_chars(decimal_text(self.position as nat))
    }

    /// The message of the failure.
    pub fn to_string(&self) -> (text: String)
        ensures
            text@ == self.message(),
    {
        let mut text = self.kind.as_str().to_string();
        text.append(" at ");
        let mut digits: Vec<u8> = Vec::new();
        push_decimal(&mut digits, self.position as u128);
        proof {
            lemma_decimal_text_shape(self.position as nat);
            assert(digits@ =~= decimal_text(self.position as nat));
        }
        push_ascii(&mut text, digits.as_slice());
        text
    }
}

/// Calls `BASE32HEX.encode`. Trusted: the text depends on the input alone. The call panics on
/// an input longer than `usize::MAX / 512`, which the precondition rules out.
#[verifier::external_body]
pub(crate) fn base32hex_encode(input: &[u8]) -> (text: Vec<u8>)
    requires
        encodable(input@),
    ensures
        text@ == encoded(Codec::Base32Hex, input@),
{
    BASE32HEX.encode(input).into_bytes()
}

/// Calls `BASE32HEX.decode`. Trusted: the outcome depends on the input alone. A failure is
/// handed on as the position and the kind that the decoder reports.
#[verifier::external_body]
pub(crate) fn base32hex_decode(input: &[u8]) -> (r: Result<Vec<u8>, DecodeFailure>)
    ensures
        match r {
            Ok(output) => decoded(Codec::Base32Hex, input@) == Ok::<Seq<u8>, DecodeFailure>(output@),
            Err(e) => decoded(Codec::Base32Hex, input@) == Err::<Seq<u8>, DecodeFailure>(e),
        },
{
    match BASE32HEX.decode(input) {
        Ok(output) => Ok(output),
        Err(e) => Err(
            DecodeFailure {
                position: e.position,
                kind: match e.kind {
                    DecodeKind::Length => DecodeFailureKind::Length,
                    DecodeKind::Symbol => DecodeFailureKind::Symbol,
                    DecodeKind::Trailing => DecodeFailureKind::Trailing,
                    DecodeKind::Padding => DecodeFailureKind::Padding,
                },
            },
        ),
    }
}

/// Calls `BASE64.encode`. Trusted: the text depends on the input alone. The call panics on
/// an input longer than `usize::MAX / 512`, which the precondition rules out.
#[verifier::external_body]
pub(crate) fn base64_encode(input: &[u8]) -> (text: Vec<u8>)
    requires
        encodable(input@),
    ensures
        text@ == encoded(Codec::Base64, input@),
{
    BASE64.encode(input).into_bytes()
}

/// Calls `BASE64.decode`. Trusted: the outcome depends on the input alone. A failure is
/// handed on as the position and the kind that the decoder reports.
#[verifier::external_body]
pub(crate) fn base64_decode(input: &[u8]) -> (r: Result<Vec<u8>, DecodeFailure>)
    ensures
        match r {
            Ok(output) => decoded(Codec::Base64, input@) == Ok::<Seq<u8>, DecodeFailure>(output@),
            Err(e) => decoded(Codec::Base64, input@) == Err::<Seq<u8>, DecodeFailure>(e),
        },
{
    match BASE64.decode(input) {
        Ok(output) => Ok(output),
        Err(e) => Err(
            DecodeFailure {
                position: e.position,
                kind: match e.kind {
                    DecodeKind::Length => DecodeFailureKind::Length,
                    DecodeKind::Symbol => DecodeFailureKind::Symbol,
                    DecodeKind::Trailing => DecodeFailureKind::Trailing,
                    DecodeKind::Padding => DecodeFailureKind::Padding,
                },
            },
        ),
    }
}

/// Calls `BASE64_NOPAD.encode`. Trusted: the text depends on the input alone. The call panics on
/// an input longer than `usize::MAX / 512`, which the precondition rules out.
#[verifier::external_body]
pub(crate) fn base64_nopad_encode(input: &[u8]) -> (text: Vec<u8>)
    requires
        encodable(input@),
    ensures
        text@ == encoded(Codec::Base64NoPad, input@),
{
    BASE64_NOPAD.encode(input).into_bytes()
}

/// Calls `BASE64_NOPAD.decode`. Trusted: the outcome depends on the input alone. A failure is
/// handed on as the position and the kind that the decoder reports.
#[verifier::external_body]
pub(crate) fn base64_nopad_decode(input: &[u8]) -> (r: Result<Vec<u8>, DecodeFailure>)
    ensures
        match r {
            Ok(output) => decoded(Codec::Base64NoPad, input@) == Ok::<Seq<u8>, DecodeFailure>(output@),
            Err(e) => decoded(Codec::Base64NoPad, input@) == Err::<Seq<u8>, DecodeFailure>(e),
        },
{
    match BASE64_NOPAD.decode(input) {
        Ok(output) => Ok(output),
        Err(e) => Err(
            DecodeFailure {
                position: e.position,
                kind: match e.kind {
                    DecodeKind::Length => DecodeFailureKind::Length,
                    DecodeKind::Symbol => DecodeFailureKind::Symbol,
                    DecodeKind::Trailing => DecodeFailureKind::Trailing,
                    DecodeKind::Padding => DecodeFailureKind::Padding,
                },
            },
        ),
    }
}

/// Calls `BASE64URL.encode`. Trusted: the text depends on the input alone. The call panics on
/// an input longer than `usize::MAX / 512`, which the precondition rules out.
#[verifier::external_body]
pub(crate) fn base64url_encode(input: &[u8]) -> (text: Vec<u8>)
    requires
        encodable(input@),
    ensures
        text@ == encoded(Codec::Base64Url, input@),
{
    BASE64URL.encode(input).into_bytes()
}

/// Calls `BASE64URL.decode`. Trusted: the outcome depends on the input alone. A failure is
/// handed on as the position and the kind that the decoder reports.
#[verifier::external_body]
pub(crate) fn base64url_decode(input: &[u8]) -> (r: Result<Vec<u8>, DecodeFailure>)
    ensures
        match r {
            Ok(output) => decoded(Codec::Base64Url, input@) == Ok::<Seq<u8>, DecodeFailure>(output@),
            Err(e) => decoded(Codec::Base64Url, input@) == Err::<Seq<u8>, DecodeFailure>(e),
        },
{
    match BASE64URL.decode(input) {
        Ok(output) => Ok(output),
        Err(e) => Err(
            DecodeFailure {
                position: e.position,
                kind: match e.kind {
                    DecodeKind::Length => DecodeFailureKind::Length,
                    DecodeKind::Symbol => DecodeFailureKind::Symbol,
                    DecodeKind::Trailing => DecodeFailureKind::Trailing,
                    DecodeKind::Padding => DecodeFailureKind::Padding,
                },
            },
        ),
    }
}

/// Calls `BASE64URL_NOPAD.encode`. Trusted: the text depends on the input alone. The call panics on
/// an input longer than `usize::MAX / 512`, which the precondition rules out.
#[verifier::external_body]
pub(crate) fn base64url_nopad_encode(input: &[u8]) -> (text: Vec<u8>)
    requires
        encodable(input@),
    ensures
        text@ == encoded(Codec::Base64UrlNoPad, input@),
{
    BASE64URL_NOPAD.encode(input).into_bytes()
}

/// Calls `BASE64URL_NOPAD.decode`. Trusted: the outcome depends on the input alone. A failure is
/// handed on as the position and the kind that the decoder reports.
#[verifier::external_body]
pub(crate) fn base64url_nopad_decode(input: &[u8]) -> (r: Result<Vec<u8>, DecodeFailure>)
    ensures
        match r {
            Ok(output) => decoded(Codec::Base64UrlNoPad, input@) == Ok::<Seq<u8>, DecodeFailure>(output@),
            Err(e) => decoded(Codec::Base64UrlNoPad, input@) == Err::<Seq<u8>, DecodeFailure>(e),
        },
{
    match BASE64URL_NOPAD.decode(input) {
        Ok(output) => Ok(output),
        Err(e) => Err(
            DecodeFailure {
                position: e.position,
                kind: match e.kind {
                    DecodeKind::Length => DecodeFailureKind::Length,
                    DecodeKind::Symbol => DecodeFailureKind::Symbol,
                    DecodeKind::Trailing => DecodeFailureKind::Trailing,
                    DecodeKind::Padding => DecodeFailureKind::Padding,
                },
            },
        ),
    }
}

/// Calls `BASE64_MIME.encode`. Trusted: the text depends on the input alone. The call panics on
/// an input longer than `usize::MAX / 512`, which the precondition rules out.
#[verifier::external_body]
pub(crate) fn base64_mime_encode(input: &[u8]) -> (text: Vec<u8>)
    requires
        encodable(input@),
    ensures
        text@ == encoded(Codec::Base64Mime, input@),
{
    BASE64_MIME.encode(input).into_bytes()
}

/// Calls `BASE64_MIME.decode`. Trusted: the outcome depends on the input alone. A failure is
/// handed on as the position and the kind that the decoder reports.
#[verifier::external_body]
pub(crate) fn base64_mime_decode(input: &[u8]) -> (r: Result<Vec<u8>, DecodeFailure>)
    ensures
        match r {
            Ok(output) => decoded(Codec::Base64Mime, input@) == Ok::<Seq<u8>, DecodeFailure>(output@),
            Err(e) => decoded(Codec::Base64Mime, input@) == Err::<Seq<u8>, DecodeFailure>(e),
        },
{
    match BASE64_MIME.decode(input) {
        Ok(output) => Ok(output),
        Err(e) => Err(
            DecodeFailure {
                position: e.position,
                kind: match e.kind {
                    DecodeKind::Length => DecodeFailureKind::Length,
                    DecodeKind::Symbol => DecodeFailureKind::Symbol,
                    DecodeKind::Trailing => DecodeFailureKind::Trailing,
                    DecodeKind::Padding => DecodeFailureKind::Padding,
                },
            },
        ),
    }
}

} // verus!
