//! From a captured record to its fingerprint in one step.

use crate::fingerprint::ja4::compute_ja4;
use crate::fingerprint::ja4::ja4;
use crate::fingerprint::parser::parse_client_hello;
use crate::fingerprint::parser::parsed;
use crate::fingerprint::parser::starts_as_handshake;
use crate::fingerprint::parser::ParseError;
use vstd::prelude::*;

verus! {

/// Why a record has no fingerprint.
#[derive(Debug, Clone, Copy, PartialEq, Eq, Structural)]
pub enum FingerprintError {
    /// The record does not start as a TLS handshake record does.
    NotHandshake,
    /// The record could not be read as a ClientHello.
    Parse(ParseError),
}

/// The fingerprint of a captured record, or the reason why it has none.
pub open spec fn fingerprint_of(data: Seq<u8>) -> Result<Seq<char>, FingerprintError> {
    if !starts_as_handshake(data) {
        Err(FingerprintError::NotHandshake)
    } else {
        match parsed(data) {
            Err(e) => Err(FingerprintError::Parse(e)),
            Ok(hello) => Ok(ja4(hello)),
        }
    }
}

/// Tells whether a record starts as a TLS handshake record does.
pub fn is_handshake_record(data: &[u8]) -> (b: bool)
    ensures
        b == starts_as_handshake(data@),
{
    data.len() >= 2 && data[0] == 0x16 && data[1] == 0x03
}

/// Computes the fingerprint of a captured record.
///
/// The result depends on the bytes of the record alone.
pub fn fingerprint(data: &[u8]) -> (r: Result<String, FingerprintError>)
    ensures
        match r {
            Ok(fp) => fingerprint_of(data@) == Ok::<Seq<char>, FingerprintError>(fp@),
            Err(e) => fingerprint_of(data@) == Err::<Seq<char>, FingerprintError>(e),
        },
{
    if !is_handshake_record(data) {
        return Err(FingerprintError::NotHandshake);
    }
    match parse_client_hello(data) {
        Err(e) => Err(FingerprintError::Parse(e)),
        Ok(hello) => Ok(compute_ja4(&hello)),
    }
}

/// Takes note of a captured record: where it has a fingerprint, that becomes the last
/// fingerprint seen; where it has none, the last one seen stays.
pub fn observe(last_seen: &mut Option<String>, data: &[u8])
    ensures
        match fingerprint_of(data@) {
            Ok(fp) => *final(last_seen) matches Some(s) && s@ == fp,
            Err(_) => *final(last_seen) == *old(last_seen),
        },
{
    match fingerprint(data) {
        Ok(fp) => {
            *last_seen = Some(fp);
        },
        Err(_) => {},
    }
}

} // verus!
