//! The handshake of curl 7.61.1.

use crate::tls::alpn::AlpnProtocol;
use crate::tls::certs_store::is_builtin_set;
use crate::tls::certs_store::CertsStore;
use crate::tls::cipher::CipherSuite;
use crate::tls::settings::TlsSettings;
use crate::tls::settings::TlsSettingsView;
use crate::tls::signature::SignatureAlgorithm;
use crate::tls::version::TlsVersion;
use vstd::prelude::*;

verus! {

/// The cipher suites that the client offers, in the order in which it offers them.
pub open spec fn cipher_order() -> Seq<CipherSuite> {
    seq![
        CipherSuite::TLS_AES_128_GCM_SHA256,
        CipherSuite::TLS_AES_256_GCM_SHA384,
        CipherSuite::TLS_CHACHA20_POLY1305_SHA256,
        CipherSuite::TLS_ECDHE_ECDSA_WITH_AES_128_CBC_SHA,
        CipherSuite::TLS_ECDHE_ECDSA_WITH_AES_256_CBC_SHA,
        CipherSuite::TLS_ECDHE_RSA_WITH_AES_128_CBC_SHA,
        CipherSuite::TLS_ECDHE_RSA_WITH_AES_256_CBC_SHA,
        CipherSuite::TLS_ECDHE_ECDSA_WITH_AES_128_GCM_SHA256,
        CipherSuite::TLS_ECDHE_ECDSA_WITH_AES_256_GCM_SHA384,
        CipherSuite::TLS_ECDHE_RSA_WITH_AES_128_GCM_SHA256,
        CipherSuite::TLS_ECDHE_RSA_WITH_AES_256_GCM_SHA384,
        CipherSuite::TLS_ECDHE_RSA_WITH_CHACHA20_POLY1305_SHA256,
        CipherSuite::TLS_ECDHE_ECDSA_WITH_CHACHA20_POLY1305_SHA256,
    ]
}

/// The signature algorithms that the client offers, in the order in which it offers them.
pub open spec fn signature_algorithm_order() -> Seq<SignatureAlgorithm> {
    seq![
        SignatureAlgorithm::RSA_PSS_RSAE_SHA256,
        SignatureAlgorithm::ECDSA_SECP256R1_SHA256,
        SignatureAlgorithm::ED25519,
        SignatureAlgorithm::RSA_PSS_RSAE_SHA384,
        SignatureAlgorithm::RSA_PSS_RSAE_SHA512,
        SignatureAlgorithm::RSA_PKCS1_SHA256,
        SignatureAlgorithm::RSA_PKCS1_SHA384,
        SignatureAlgorithm::RSA_PKCS1_SHA512,
        SignatureAlgorithm::ECDSA_SECP384R1_SHA384,
        SignatureAlgorithm::RSA_PKCS1_SHA1,
        SignatureAlgorithm::ECDSA_SHA1,
    ]
}

/// The client's profile, on the given trust store.
///
/// All versions from TLS 1.0 to TLS 1.3, no session tickets, no ALPN extension, the cipher
/// suites and signature algorithms in the client's order, a stapled OCSP response and signed
/// certificate timestamps requested, no encrypt-then-MAC and no padding.
pub open spec fn profile(certs_store: Option<Seq<Seq<u8>>>) -> TlsSettingsView {
    TlsSettingsView {
        certs_store,
        min_tls_version: Some(TlsVersion::TLS1_0),
        max_tls_version: Some(TlsVersion::TLS1_3),
        session_ticket: Some(false),
        alpn_protos: Seq::empty(),
        ciphers: Some(CipherSuite::serialized(cipher_order())),
        signature_algorithms: Some(SignatureAlgorithm::serialized(signature_algorithm_order())),
        enable_ocsp_stapling: true,
        enable_signed_cert_timestamps: true,
        encrypt_then_mac: Some(false),
        padding: Some(false),
        ..TlsSettingsView::defaults()
    }
}

/// The client's profile: with the built-in root certificates as its trust store, or with no
/// trust store at all.
pub fn settings(with_certs: bool) -> (settings: TlsSettings)
    ensures
        settings@ == profile(settings@.certs_store),
        settings@.certs_store is Some <==> with_certs,
        settings@.certs_store matches Some(certs) ==> is_builtin_set(certs),
        settings@.well_formed(),
{
    let ciphers: [CipherSuite; 13] = [
        CipherSuite::TLS_AES_128_GCM_SHA256,
        CipherSuite::TLS_AES_256_GCM_SHA384,
        CipherSuite::TLS_CHACHA20_POLY1305_SHA256,
        CipherSuite::TLS_ECDHE_ECDSA_WITH_AES_128_CBC_SHA,
        CipherSuite::TLS_ECDHE_ECDSA_WITH_AES_256_CBC_SHA,
        CipherSuite::TLS_ECDHE_RSA_WITH_AES_128_CBC_SHA,
        CipherSuite::TLS_ECDHE_RSA_WITH_AES_256_CBC_SHA,
        CipherSuite::TLS_ECDHE_ECDSA_WITH_AES_128_GCM_SHA256,
        CipherSuite::TLS_ECDHE_ECDSA_WITH_AES_256_GCM_SHA384,
        CipherSuite::TLS_ECDHE_RSA_WITH_AES_128_GCM_SHA256,
        CipherSuite::TLS_ECDHE_RSA_WITH_AES_256_GCM_SHA384,
        CipherSuite::TLS_ECDHE_RSA_WITH_CHACHA20_POLY1305_SHA256,
        CipherSuite::TLS_ECDHE_ECDSA_WITH_CHACHA20_POLY1305_SHA256,
    ];
    let signature_algorithms: [SignatureAlgorithm; 11] = [
        SignatureAlgorithm::RSA_PSS_RSAE_SHA256,
        SignatureAlgorithm::ECDSA_SECP256R1_SHA256,
        SignatureAlgorithm::ED25519,
        SignatureAlgorithm::RSA_PSS_RSAE_SHA384,
        SignatureAlgorithm::RSA_PSS_RSAE_SHA512,
        SignatureAlgorithm::RSA_PKCS1_SHA256,
        SignatureAlgorithm::RSA_PKCS1_SHA384,
        SignatureAlgorithm::RSA_PKCS1_SHA512,
        SignatureAlgorithm::ECDSA_SECP384R1_SHA384,
        SignatureAlgorithm::RSA_PKCS1_SHA1,
        SignatureAlgorithm::ECDSA_SHA1,
    ];
    let no_alpn: [AlpnProtocol; 0] = [];
    proof {
        assert(ciphers@ =~= cipher_order());
        assert(signature_algorithms@ =~= signature_algorithm_order());
        assert(no_alpn@ =~= Seq::<AlpnProtocol>::empty());
    }
    let certs_store = if with_certs {
        Some(CertsStore::load())
    } else {
        None
    };
    TlsSettings::builder().certs_store(certs_store).min_tls_version(
        TlsVersion::TLS1_0,
    ).max_tls_version(TlsVersion::TLS1_3).session_ticket(false).alpn_protos(
        no_alpn.as_slice(),
    ).ciphers(ciphers.as_slice()).signature_algorithms(
        signature_algorithms.as_slice(),
    ).enable_ocsp_stapling(true).enable_signed_cert_timestamps(true).encrypt_then_mac(
        false,
    ).padding(false)
}

} // verus!
