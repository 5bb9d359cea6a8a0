use crate::encore::codec::DecodeFailure;
use hex::FromHexError;
use vstd::prelude::*;

verus! {

/// Why an operation failed.
#[derive(Debug)]
pub enum OperationError {
    DecodeUtf8Error,
    DecodeError(String),
    EncryptionError(String),
    IoError(String),
    NotImplemented(String),
    Unknown,
}

/// What an [`OperationError`] holds, as mathematical values.
pub enum OperationErrorView {
    DecodeUtf8Error,
    DecodeError(Seq<char>),
    EncryptionError(Seq<char>),
    IoError(Seq<char>),
    NotImplemented(Seq<char>),
    Unknown,
}

impl View for OperationError {
    type V = OperationErrorView;

    open spec fn view(&self) -> OperationErrorView {
        match self {
            OperationError::DecodeUtf8Error => OperationErrorView::DecodeUtf8Error,
            OperationError::DecodeError(text) => OperationErrorView::DecodeError(text@),
            OperationError::EncryptionError(text) => OperationErrorView::EncryptionError(text@),
            OperationError::IoError(text) => OperationErrorView::IoError(text@),
            OperationError::NotImplemented(text) => OperationErrorView::NotImplemented(text@),
            OperationError::Unknown => OperationErrorView::Unknown,
        }
    }
}

/// The error for input that is not hexadecimal text.
pub open spec fn invalid_hex() -> OperationErrorView {
    OperationErrorView::DecodeError("Invalid Hex input"@)
}

impl OperationErrorView {
    /// The error's message.
    pub open spec fn message(self) -> Seq<char> {
        match self {
            OperationErrorView::DecodeUtf8Error => "Utf8 decode error"@,
            OperationErrorView::DecodeError(text) => "Decode error: "@ + text,
            OperationErrorView::EncryptionError(text) => "Encryption error: "@ + text,
            OperationErrorView::IoError(text) => "IO error: "@ + text,
            OperationErrorView::NotImplemented(text) => "Not implemented: "@ + text,
            OperationErrorView::Unknown => "Unknown error"@,
        }
    }
}

impl OperationError {
    /// The error for a refusal of the hexadecimal decoder, whatever its reason.
    pub fn from_hex_error(_value: FromHexError) -> (e: OperationError)
        ensures
            e@ == invalid_hex(),
    {
        OperationError::DecodeError("Invalid Hex input".to_string())
    }

    /// The error for a refusal of a base-N decoder: it carries the decoder's own words.
    pub fn from_decode_error(value: DecodeFailure) -> (e: OperationError)
        ensures
            e@ == OperationErrorView::DecodeError(value.message()),
    {
        OperationError::DecodeError(value.to_string())
    }

    /// The error's message.
    pub fn to_string(&self) -> (text: String)
        ensures
            text@ == self@.message(),
    {
        match self {
            OperationError::DecodeUtf8Error => "Utf8 decode error".to_string(),
            OperationError::DecodeError(text) => "Decode error: ".to_string().concat(text.as_str()),
            OperationError::EncryptionError(text) => "Encryption error: ".to_string().concat(
                text.as_str(),
            ),
            OperationError::IoError(text) => "IO error: ".to_string().concat(text.as_str()),
            OperationError::NotImplemented(text) => "Not implemented: ".to_string().concat(
                text.as_str(),
            ),
            OperationError::Unknown => "Unknown error".to_string(),
        }
    }
}

} // verus!
