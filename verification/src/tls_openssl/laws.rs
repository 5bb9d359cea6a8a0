//! What holds of every translation.

use crate::tls::settings::TlsSettingsView;
use crate::tls_openssl::settings::for_engine;
use crate::tls_openssl::settings::OpensslSettingsView;
use crate::tls_openssl::translation::hello_calls;
use crate::tls_openssl::translation::translation;
use crate::tls_openssl::translation::EngineCallView;
use vstd::prelude::*;

verus! {

/// Whether two profiles agree in every parameter that shapes the configuring of a context:
/// whether there is a trust store, the verification mode, the ALPN list, session tickets,
/// the version bounds, the groups, the signature algorithms, the cipher list, the OCSP and
/// timestamp requests, encrypt-then-MAC and padding.
pub open spec fn same_handshake_parameters(first: TlsSettingsView, second: TlsSettingsView) -> bool {
    &&& first.certs_store is Some <==> second.certs_store is Some
    &&& first.certs_verification == second.certs_verification
    &&& first.alpn_protos == second.alpn_protos
    &&& first.session_ticket == second.session_ticket
    &&& first.min_tls_version == second.min_tls_version
    &&& first.max_tls_version == second.max_tls_version
    &&& first.curves == second.curves
    &&& first.signature_algorithms == second.signature_algorithms
    &&& first.ciphers == second.ciphers
    &&& first.enable_ocsp_stapling == second.enable_ocsp_stapling
    &&& first.enable_signed_cert_timestamps == second.enable_signed_cert_timestamps
    &&& first.encrypt_then_mac == second.encrypt_then_mac
    &&& first.padding == second.padding
}

/// Translation is deterministic: profiles that agree in their handshake parameters are
/// translated into the same calls in the same order, into whatever contexts, and however
/// often. Equal profiles are such profiles.
pub proof fn translation_is_repeatable(first: TlsSettingsView, second: TlsSettingsView)
    requires
        same_handshake_parameters(first, second),
    ensures
        translation(for_engine(first)) == translation(for_engine(second)),
        first == second ==> for_engine(first) == for_engine(second),
{
}

/// Whether two profiles agree in every parameter that shapes the ClientHello: the ALPN
/// list, session tickets, the version bounds, the groups, the signature algorithms, the
/// cipher list, the OCSP and timestamp requests, encrypt-then-MAC and padding.
pub open spec fn same_hello_parameters(first: TlsSettingsView, second: TlsSettingsView) -> bool {
    &&& first.alpn_protos == second.alpn_protos
    &&& first.session_ticket == second.session_ticket
    &&& first.min_tls_version == second.min_tls_version
    &&& first.max_tls_version == second.max_tls_version
    &&& first.curves == second.curves
    &&& first.signature_algorithms == second.signature_algorithms
    &&& first.ciphers == second.ciphers
    &&& first.enable_ocsp_stapling == second.enable_ocsp_stapling
    &&& first.enable_signed_cert_timestamps == second.enable_signed_cert_timestamps
    &&& first.encrypt_then_mac == second.encrypt_then_mac
    &&& first.padding == second.padding
}

/// Profiles that agree in every parameter that shapes the ClientHello are translated into
/// the same calls that shape it, in the same order, whatever they say of verification, of
/// the trust store, and of anything that the engine is not told.
pub proof fn hello_calls_depend_on_hello_parameters(first: TlsSettingsView, second: TlsSettingsView)
    requires
        same_hello_parameters(first, second),
    ensures
        hello_calls(for_engine(first)) == hello_calls(for_engine(second)),
{
}

/// Every translation sets the verification mode and the ALPN list, in this order, and
/// nothing stands before them but the installing of the trust store.
pub proof fn translation_always_sets_verification_and_alpn(settings: OpensslSettingsView)
    ensures
        ({
            let calls = translation(settings);
            let first = if settings.certs_store is Some {
                1int
            } else {
                0int
            };
            &&& calls.len() >= first + 2
            &&& calls.len() <= 13
            &&& settings.certs_store is Some ==> calls[0] == EngineCallView::SetVerifyCertStore
            &&& calls[first] == (EngineCallView::SetVerify { peer: settings.certs_verification })
            &&& calls[first + 1] == EngineCallView::SetAlpnProtos(settings.alpn_protos)
        }),
{
}

/// A profile without a trust store is a valid one: its translation installs none, and
/// begins with the verification mode.
pub proof fn no_trust_store_installs_none(settings: TlsSettingsView)
    requires
        settings.certs_store is None,
    ensures
        for_engine(settings).certs_store is None,
        !translation(for_engine(settings)).contains(EngineCallView::SetVerifyCertStore),
        translation(for_engine(settings))[0] == (EngineCallView::SetVerify {
            peer: settings.certs_verification,
        }),
{
    let calls = translation(for_engine(settings));
    assert forall|i: int| 0 <= i < calls.len() implies calls[i]
        != EngineCallView::SetVerifyCertStore by {}
}

} // verus!
