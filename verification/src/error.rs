//! The failures that decoding, classification and resolution report.

use vstd::prelude::*;

verus! {

/// Why an operation of this library failed. Every failure is returned as a value;
/// no operation aborts, and none yields a partial result.
#[derive(Debug, Clone, PartialEq, Eq)]
pub enum CooError {
    /// The VAA announces a version other than the supported one.
    MalformedVaa,
    /// The buffer ends before a field of the VAA does.
    TruncatedVaa,
    /// The payload does not have the shape of the kind it was decoded as: its
    /// leading byte names another kind, or bytes follow its last field.
    MalformedPayload,
    /// The payload ends before one of its fields does.
    TruncatedPayload,
    /// The emitter role is unset, or the chain has no known deployment of it.
    UnknownEmitter,
    /// A bridge payload has no leading byte to tell its kind by.
    EmptyPayload,
    /// A text that should be hexadecimal is not.
    HexDecodeError,
    /// A text field holds bytes that are not UTF-8.
    InvalidUtf8,
    /// A text that should be base64 is not.
    Base64Error,
    /// A text that should be base58 is not.
    Base58Error,
    /// A text names no chain, neither by name nor by number.
    InvalidChain,
    /// The guardian's answer is not JSON.
    JsonError,
    /// A message cannot be written as JSON.
    JsonEncodeError,
    /// The guardian's answer lacks the field that carries the VAA; the answer is kept
    /// as it came, for diagnosis.
    ProtocolResponseError(String),
    /// The query path could not be joined to the guardian's address.
    UrlError,
}

} // verus!
