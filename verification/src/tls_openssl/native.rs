//! The engine's own types and the calls made on them.

use openssl::error::ErrorStack;
use openssl::x509::store::X509Store;
use openssl::x509::store::X509StoreBuilder;
use openssl::x509::X509;
use vstd::prelude::*;

verus! {

/// The engine's diagnostics for a call that failed.
#[verifier::external_type_specification]
#[verifier::external_body]
pub struct ExErrorStack(ErrorStack);

/// The engine's trust store.
#[verifier::external_type_specification]
#[verifier::external_body]
pub struct ExX509Store(X509Store);

/// The engine's trust store while it is being filled.
#[verifier::external_type_specification]
#[verifier::external_body]
pub struct ExX509StoreBuilder(X509StoreBuilder);

/// A certificate as the engine holds it.
#[verifier::external_type_specification]
#[verifier::external_body]
pub struct ExX509(X509);

/// The certificates that a store holds while it is being filled, each by the DER form that
/// it was read from.
pub uninterp spec fn loaded(builder: X509StoreBuilder) -> Set<Seq<u8>>;

/// The certificates that a store holds, each by the DER form that it was read from.
pub uninterp spec fn kept(store: X509Store) -> Set<Seq<u8>>;

/// The DER form that a certificate was read from.
pub uninterp spec fn read_from(cert: X509) -> Seq<u8>;

/// Calls `X509StoreBuilder::new`. Trusted: a store that was made is empty.
#[verifier::external_body]
pub(crate) fn new_store_builder() -> (r: Result<X509StoreBuilder, ErrorStack>)
    ensures
        r matches Ok(builder) ==> loaded(builder) == Set::<Seq<u8>>::empty(),
{
    X509StoreBuilder::new()
}

/// Calls `X509::from_der`. Trusted: a certificate that was read was read from the bytes
/// given.
#[verifier::external_body]
pub(crate) fn certificate_from_der(der: &[u8]) -> (r: Result<X509, ErrorStack>)
    ensures
        r matches Ok(cert) ==> read_from(cert) == der@,
{
    X509::from_der(der)
}

/// Calls `X509StoreBuilder::add_cert`. Trusted: on success the store holds the certificate
/// beside those that it held; a certificate that it held already is held once.
#[verifier::external_body]
pub(crate) fn add_certificate(builder: &mut X509StoreBuilder, cert: X509) -> (r: Result<
    (),
    ErrorStack,
>)
    ensures
        r is Ok ==> loaded(*final(builder)) == loaded(*old(builder)).insert(read_from(cert)),
{
    builder.add_cert(cert)
}

/// Calls `X509StoreBuilder::build`. Trusted: the store holds what was loaded.
#[verifier::external_body]
pub(crate) fn finish_store(builder: X509StoreBuilder) -> (store: X509Store)
    ensures
        kept(store) == loaded(builder),
{
    builder.build()
}

/// Calls `ErrorStack::get`, which takes the diagnostics that the engine has queued for this
/// thread. Trusted: nothing is claimed of them.
#[verifier::external_body]
pub(crate) fn pending_errors() -> (errors: ErrorStack) {
    ErrorStack::get()
}

} // verus!
