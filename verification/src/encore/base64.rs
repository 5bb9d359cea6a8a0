use crate::encore::base32hex::decoding_outcome;
use crate::encore::codec::base64_decode;
use crate::encore::codec::base64_encode;
use crate::encore::codec::base64_mime_decode;
use crate::encore::codec::base64_mime_encode;
use crate::encore::codec::base64_nopad_decode;
use crate::encore::codec::base64_nopad_encode;
use crate::encore::codec::base64url_decode;
use crate::encore::codec::base64url_encode;
use crate::encore::codec::base64url_nopad_decode;
use crate::encore::codec::base64url_nopad_encode;
use crate::encore::codec::encodable;
use crate::encore::codec::encoded;
use crate::encore::codec::ENCODE_LIMIT;
use crate::encore::codec::Codec;
use crate::encore::errors::OperationError;
use crate::encore::errors::OperationErrorView;
use crate::encore::operation::Operation;
use vstd::prelude::*;

verus! {

/// The alphabet and layout of base 64 text.
#[derive(Clone, Copy, Debug, PartialEq, Eq, Structural)]
pub enum Base64Format {
    Standard,
    Url,
    Mime,
}

/// The encoding that a format and a choice of padding stand for. MIME text is always padded.
pub open spec fn base64_codec(format: Base64Format, pad: bool) -> Codec {
    match (format, pad) {
        (Base64Format::Standard, false) => Codec::Base64NoPad,
        (Base64Format::Standard, true) => Codec::Base64,
        (Base64Format::Url, false) => Codec::Base64UrlNoPad,
        (Base64Format::Url, true) => Codec::Base64Url,
        (Base64Format::Mime, _) => Codec::Base64Mime,
    }
}

/// Decodes base 64 text.
#[derive(Clone)]
pub struct Base64Decode {
    format: Base64Format,
    pad: bool,
}

impl Operation for Base64Decode {
    open spec fn accepts(&self, input: Seq<u8>) -> bool {
        true
    }

    fn is_accepted(&self, input: &[u8]) -> (b: bool) {
        true
    }

    open spec fn outcome(&self, input: Seq<u8>) -> Result<Seq<u8>, OperationErrorView> {
        decoding_outcome(base64_codec(self.format(), self.pad()), input)
    }

    fn execute(&self, input: &[u8]) -> (r: Result<Vec<u8>, OperationError>) {
        let decoded = match (self.format, self.pad) {
            (Base64Format::Standard, false) => base64_nopad_decode(input),
            (Base64Format::Standard, true) => base64_decode(input),
            (Base64Format::Url, false) => base64url_nopad_decode(input),
            (Base64Format::Url, true) => base64url_decode(input),
            (Base64Format::Mime, _) => base64_mime_decode(input),
        };
        match decoded {
            Ok(output) => Ok(output),
            Err(e) => Err(OperationError::from_decode_error(e)),
        }
    }
}

impl Base64Decode {
    /// The format that the operation reads.
    pub closed spec fn format(&self) -> Base64Format {
        self.format
    }

    /// Whether the operation expects padding.
    pub closed spec fn pad(&self) -> bool {
        self.pad
    }

    pub fn new(format: Base64Format, pad: bool) -> (op: Self)
        ensures
            op.format() == format,
            op.pad() == pad,
    {
        Base64Decode { format, pad }
    }

}

/// Encodes bytes as base 64 text.
#[derive(Clone)]
pub struct Base64Encode {
    format: Base64Format,
    pad: bool,
}

impl Operation for Base64Encode {
    open spec fn accepts(&self, input: Seq<u8>) -> bool {
        encodable(input)
    }

    fn is_accepted(&self, input: &[u8]) -> (b: bool) {
        input.len() <= ENCODE_LIMIT
    }

    open spec fn outcome(&self, input: Seq<u8>) -> Result<Seq<u8>, OperationErrorView> {
        Ok(encoded(base64_codec(self.format(), self.pad()), input))
    }

    fn execute(&self, input: &[u8]) -> (r: Result<Vec<u8>, OperationError>) {
        let text = match (self.format, self.pad) {
            (Base64Format::Standard, false) => base64_nopad_encode(input),
            (Base64Format::Standard, true) => base64_encode(input),
            (Base64Format::Url, false) => base64url_nopad_encode(input),
            (Base64Format::Url, true) => base64url_encode(input),
            (Base64Format::Mime, _) => base64_mime_encode(input),
        };
        Ok(text)
    }
}

impl Base64Encode {
    /// The format that the operation writes.
    pub closed spec fn format(&self) -> Base64Format {
        self.format
    }

    /// Whether the operation pads its text.
    pub closed spec fn pad(&self) -> bool {
        self.pad
    }

    pub fn new(format: Base64Format, pad: bool) -> (op: Self)
        ensures
            op.format() == format,
            op.pad() == pad,
    {
        Base64Encode { format, pad }
    }

}

} // verus!
