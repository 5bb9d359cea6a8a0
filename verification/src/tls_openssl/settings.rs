//! A handshake profile made ready for the engine.

use crate::tls::settings::TlsSettings;
use crate::tls::settings::TlsSettingsView;
use crate::text::optional_text;
use crate::tls::version::TlsVersion;
use crate::tls_openssl::certs_store::OpensslCertsStore;
use openssl::error::ErrorStack;
use vstd::prelude::*;

verus! {

/// The part of a handshake profile that the engine can be told, with the trust store in the
/// engine's own form.
pub struct OpensslSettings {
    /// Root certificates store.
    pub certs_store: Option<OpensslCertsStore>,
    /// Verify certificates.
    pub certs_verification: bool,
    /// Send the server name indication extension.
    pub tls_sni: bool,
    /// The ALPN list to advertise, in wire form; empty for no ALPN extension.
    pub alpn_protos: Vec<u8>,
    /// Session tickets; unset leaves the engine's default.
    pub session_ticket: Option<bool>,
    /// The minimum TLS version to use.
    pub min_tls_version: Option<TlsVersion>,
    /// The maximum TLS version to use.
    pub max_tls_version: Option<TlsVersion>,
    /// The groups to offer, as the engine takes them.
    pub curves: Option<String>,
    /// The signature algorithms to offer, as the engine takes them.
    pub signature_algorithms: Option<String>,
    /// The cipher suites to offer, as the engine takes them.
    pub ciphers: Option<String>,
    /// Request a stapled OCSP response.
    pub enable_ocsp_stapling: bool,
    /// Request signed certificate timestamps.
    pub enable_signed_cert_timestamps: bool,
    /// Encrypt-then-MAC; unset leaves the engine's default.
    pub encrypt_then_mac: Option<bool>,
    /// ClientHello padding; unset leaves the engine's default.
    pub padding: Option<bool>,
}

/// What an [`OpensslSettings`] holds, as mathematical values. Of the trust store it tells
/// the certificates that the engine's store holds.
pub struct OpensslSettingsView {
    pub certs_store: Option<Set<Seq<u8>>>,
    pub certs_verification: bool,
    pub tls_sni: bool,
    pub alpn_protos: Seq<u8>,
    pub session_ticket: Option<bool>,
    pub min_tls_version: Option<TlsVersion>,
    pub max_tls_version: Option<TlsVersion>,
    pub curves: Option<Seq<char>>,
    pub signature_algorithms: Option<Seq<char>>,
    pub ciphers: Option<Seq<char>>,
    pub enable_ocsp_stapling: bool,
    pub enable_signed_cert_timestamps: bool,
    pub encrypt_then_mac: Option<bool>,
    pub padding: Option<bool>,
}

impl View for OpensslSettings {
    type V = OpensslSettingsView;

    open spec fn view(&self) -> OpensslSettingsView {
        OpensslSettingsView {
            certs_store: match self.certs_store {
                Some(store) => Some(store@),
                None => None,
            },
            certs_verification: self.certs_verification,
            tls_sni: self.tls_sni,
            alpn_protos: self.alpn_protos@,
            session_ticket: self.session_ticket,
            min_tls_version: self.min_tls_version,
            max_tls_version: self.max_tls_version,
            curves: optional_text(self.curves),
            signature_algorithms: optional_text(self.signature_algorithms),
            ciphers: optional_text(self.ciphers),
            enable_ocsp_stapling: self.enable_ocsp_stapling,
            enable_signed_cert_timestamps: self.enable_signed_cert_timestamps,
            encrypt_then_mac: self.encrypt_then_mac,
            padding: self.padding,
        }
    }
}

/// The profile as the engine is told it: every parameter that the engine has a control for,
/// unchanged, and the trust store made from the profile's certificates.
pub open spec fn for_engine(settings: TlsSettingsView) -> OpensslSettingsView {
    OpensslSettingsView {
        certs_store: match settings.certs_store {
            Some(certs) => Some(certs.to_set()),
            None => None,
        },
        certs_verification: settings.certs_verification,
        tls_sni: settings.tls_sni,
        alpn_protos: settings.alpn_protos,
        session_ticket: settings.session_ticket,
        min_tls_version: settings.min_tls_version,
        max_tls_version: settings.max_tls_version,
        curves: settings.curves,
        signature_algorithms: settings.signature_algorithms,
        ciphers: settings.ciphers,
        enable_ocsp_stapling: settings.enable_ocsp_stapling,
        enable_signed_cert_timestamps: settings.enable_signed_cert_timestamps,
        encrypt_then_mac: settings.encrypt_then_mac,
        padding: settings.padding,
    }
}

/// Copies a text that may be absent.
fn copy_of(text: &Option<String>) -> (copy: Option<String>)
    ensures
        optional_text(copy) == optional_text(*text),
{
    match text {
        Some(t) => Some(t.clone()),
        None => None,
    }
}

impl OpensslSettings {
    /// Copies the profile, with the given trust store in place of its own: every other
    /// parameter of the copy is that of the profile.
    pub fn with_certs_store(&self, certs_store: Option<OpensslCertsStore>) -> (copy: Self)
        ensures
            copy@ == (OpensslSettingsView {
                certs_store: match certs_store {
                    Some(store) => Some(store@),
                    None => None,
                },
                ..self@
            }),
    {
        OpensslSettings {
            certs_store,
            certs_verification: self.certs_verification,
            tls_sni: self.tls_sni,
            alpn_protos: self.alpn_protos.clone(),
            session_ticket: self.session_ticket,
            min_tls_version: self.min_tls_version,
            max_tls_version: self.max_tls_version,
            curves: copy_of(&self.curves),
            signature_algorithms: copy_of(&self.signature_algorithms),
            ciphers: copy_of(&self.ciphers),
            enable_ocsp_stapling: self.enable_ocsp_stapling,
            enable_signed_cert_timestamps: self.enable_signed_cert_timestamps,
            encrypt_then_mac: self.encrypt_then_mac,
            padding: self.padding,
        }
    }

    /// Makes a profile ready for the engine.
    ///
    /// Only the making of the trust store can fail: a profile without one is always accepted.
    pub fn new(settings: TlsSettings) -> (r: Result<Self, ErrorStack>)
        ensures
            r matches Ok(ready) ==> ready@ == for_engine(settings@),
            settings@.certs_store is None ==> r is Ok,
    {
        let certs_store = match settings.certs_store {
            Some(store) => match OpensslCertsStore::new(store) {
                Ok(native) => Some(native),
                Err(e) => {
                    return Err(e);
                },
            },
            None => None,
        };
        Ok(
            OpensslSettings {
                certs_store,
                certs_verification: settings.certs_verification,
                tls_sni: settings.tls_sni,
                alpn_protos: settings.alpn_protos,
                session_ticket: settings.session_ticket,
                min_tls_version: settings.min_tls_version,
                max_tls_version: settings.max_tls_version,
                curves: settings.curves,
                signature_algorithms: settings.signature_algorithms,
                ciphers: settings.ciphers,
                enable_ocsp_stapling: settings.enable_ocsp_stapling,
                enable_signed_cert_timestamps: settings.enable_signed_cert_timestamps,
                encrypt_then_mac: settings.encrypt_then_mac,
                padding: settings.padding,
            },
        )
    }
}

} // verus!
