use crate::encore::codec::base32hex_decode;
use crate::encore::codec::base32hex_encode;
use crate::encore::codec::decoded;
use crate::encore::codec::encodable;
use crate::encore::codec::encoded;
use crate::encore::codec::ENCODE_LIMIT;
use crate::encore::codec::Codec;
use crate::encore::errors::OperationError;
use crate::encore::errors::OperationErrorView;
use crate::encore::operation::Operation;
use vstd::prelude::*;

verus! {

/// What decoding a text in an encoding gives: the bytes it stands for, or a decode error
/// that carries the decoder's message.
pub open spec fn decoding_outcome(codec: Codec, input: Seq<u8>) -> Result<
    Seq<u8>,
    OperationErrorView,
> {
    match decoded(codec, input) {
        Ok(output) => Ok(output),
        Err(e) => Err(OperationErrorView::DecodeError(e.message())),
    }
}

/// Decodes base 32 text in the extended hexadecimal alphabet.
#[derive(Clone, Copy)]
pub struct Base32HexDecode {}

impl Operation for Base32HexDecode {
    open spec fn accepts(&self, input: Seq<u8>) -> bool {
        true
    }

    fn is_accepted(&self, input: &[u8]) -> (b: bool) {
        true
    }

    open spec fn outcome(&self, input: Seq<u8>) -> Result<Seq<u8>, OperationErrorView> {
        decoding_outcome(Codec::Base32Hex, input)
    }

    fn execute(&self, input: &[u8]) -> (r: Result<Vec<u8>, OperationError>) {
        match base32hex_decode(input) {
            Ok(output) => Ok(output),
            Err(e) => Err(OperationError::from_decode_error(e)),
        }
    }
}

impl Base32HexDecode {
    pub fn new() -> Self {
        Base32HexDecode {  }
    }
}

/// Encodes bytes as base 32 text in the extended hexadecimal alphabet.
#[derive(Clone)]
pub struct Base32HexEncode {}

impl Operation for Base32HexEncode {
    open spec fn accepts(&self, input: Seq<u8>) -> bool {
        encodable(input)
    }

    fn is_accepted(&self, input: &[u8]) -> (b: bool) {
        input.len() <= ENCODE_LIMIT
    }

    open spec fn outcome(&self, input: Seq<u8>) -> Result<Seq<u8>, OperationErrorView> {
        Ok(encoded(Codec::Base32Hex, input))
    }

    fn execute(&self, input: &[u8]) -> (r: Result<Vec<u8>, OperationError>) {
        Ok(base32hex_encode(input))
    }
}

impl Base32HexEncode {
    pub fn new() -> Self {
        Base32HexEncode {  }
    }
}

} // verus!
