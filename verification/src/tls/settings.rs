//! The profile of a handshake: every parameter that shapes what a client sends.

use crate::tls::alpn::AlpnProtocol;
use crate::tls::certs_store::CertsStore;
use crate::tls::cipher::CipherSuite;
use crate::tls::compression::CertCompressionAlgorithm;
use crate::tls::curve::SslCurve;
use crate::tls::signature::SignatureAlgorithm;
use crate::tls::version::TlsVersion;
use crate::text::optional_text;
use crate::text::same_bytes;
use vstd::prelude::*;

verus! {

/// The profile of a handshake. It is plain data: it can be built, moved and read without an
/// engine at hand.
#[derive(Debug)]
pub struct TlsSettings {
    /// Root certificates store.
    pub certs_store: Option<CertsStore>,
    /// Verify certificates.
    pub certs_verification: bool,
    /// Send the server name indication extension.
    pub tls_sni: bool,
    /// The ALPN list to advertise, in wire form; empty for no ALPN extension.
    pub alpn_protos: Vec<u8>,
    /// Session tickets; unset leaves the engine's default.
    pub session_ticket: Option<bool>,
    /// The minimum TLS version to use.
    pub min_tls_version: Option<TlsVersion>,
    /// The maximum TLS version to use.
    pub max_tls_version: Option<TlsVersion>,
    /// Send a decoy encrypted ClientHello configuration.
    pub enable_ech_grease: bool,
    /// Allow the extensions to be permuted.
    pub permute_extensions: Option<bool>,
    /// Send GREASE values.
    pub grease_enabled: Option<bool>,
    /// The groups to offer, as the engine takes them.
    pub curves: Option<String>,
    /// The signature algorithms to offer, as the engine takes them.
    pub signature_algorithms: Option<String>,
    /// The algorithms accepted for delegated credentials, as the engine takes them.
    pub delegated_credentials: Option<String>,
    /// The cipher suites to offer, as the engine takes them; their order is the order offered.
    pub ciphers: Option<String>,
    /// Request a stapled OCSP response.
    pub enable_ocsp_stapling: bool,
    /// Request signed certificate timestamps.
    pub enable_signed_cert_timestamps: bool,
    /// The certificate compression algorithms to offer.
    pub cert_compression_algorithm: Option<Vec<CertCompressionAlgorithm>>,
    /// The key shares length limit.
    pub key_shares_length_limit: Option<u8>,
    /// The order of the extensions in the ClientHello, by extension type.
    pub extension_permutation: Option<Vec<u16>>,
    /// Encrypt-then-MAC; unset leaves the engine's default.
    pub encrypt_then_mac: Option<bool>,
    /// ClientHello padding; unset leaves the engine's default.
    pub padding: Option<bool>,
}

/// What a [`TlsSettings`] holds, as mathematical values.
pub struct TlsSettingsView {
    pub certs_store: Option<Seq<Seq<u8>>>,
    pub certs_verification: bool,
    pub tls_sni: bool,
    pub alpn_protos: Seq<u8>,
    pub session_ticket: Option<bool>,
    pub min_tls_version: Option<TlsVersion>,
    pub max_tls_version: Option<TlsVersion>,
    pub enable_ech_grease: bool,
    pub permute_extensions: Option<bool>,
    pub grease_enabled: Option<bool>,
    pub curves: Option<Seq<char>>,
    pub signature_algorithms: Option<Seq<char>>,
    pub delegated_credentials: Option<Seq<char>>,
    pub ciphers: Option<Seq<char>>,
    pub enable_ocsp_stapling: bool,
    pub enable_signed_cert_timestamps: bool,
    pub cert_compression_algorithm: Option<Seq<CertCompressionAlgorithm>>,
    pub key_shares_length_limit: Option<u8>,
    pub extension_permutation: Option<Seq<u16>>,
    pub encrypt_then_mac: Option<bool>,
    pub padding: Option<bool>,
}

/// Why a profile was refused.
#[derive(Debug, Clone, Copy, PartialEq, Eq, Structural)]
pub enum SettingsError {
    /// The minimum version is later than the maximum version.
    VersionBoundsInverted,
}

/// The items of a list that may be absent.
pub open spec fn items_of<T>(items: Option<Vec<T>>) -> Option<Seq<T>> {
    match items {
        Some(v) => Some(v@),
        None => None,
    }
}

/// The certificates of a store that may be absent.
pub open spec fn store_of(store: Option<CertsStore>) -> Option<Seq<Seq<u8>>> {
    match store {
        Some(s) => Some(s@),
        None => None,
    }
}

/// The protocols advertised where none are chosen: HTTP/2, then HTTP/1.1.
pub open spec fn default_alpn_protocols() -> Seq<AlpnProtocol> {
    seq![AlpnProtocol::Http2, AlpnProtocol::Http1]
}

impl View for TlsSettings {
    type V = TlsSettingsView;

    open spec fn view(&self) -> TlsSettingsView {
        TlsSettingsView {
            certs_store: store_of(self.certs_store),
            certs_verification: self.certs_verification,
            tls_sni: self.tls_sni,
            alpn_protos: self.alpn_protos@,
            session_ticket: self.session_ticket,
            min_tls_version: self.min_tls_version,
            max_tls_version: self.max_tls_version,
            enable_ech_grease: self.enable_ech_grease,
            permute_extensions: self.permute_extensions,
            grease_enabled: self.grease_enabled,
            curves: optional_text(self.curves),
            signature_algorithms: optional_text(self.signature_algorithms),
            delegated_credentials: optional_text(self.delegated_credentials),
            ciphers: optional_text(self.ciphers),
            enable_ocsp_stapling: self.enable_ocsp_stapling,
            enable_signed_cert_timestamps: self.enable_signed_cert_timestamps,
            cert_compression_algorithm: items_of(self.cert_compression_algorithm),
            key_shares_length_limit: self.key_shares_length_limit,
            extension_permutation: items_of(self.extension_permutation),
            encrypt_then_mac: self.encrypt_then_mac,
            padding: self.padding,
        }
    }
}

impl TlsSettingsView {
    /// The profile in which nothing has been chosen: certificates are verified, the server
    /// name is sent, HTTP/2 and HTTP/1.1 are advertised, and everything else is off or left
    /// to the engine.
    pub open spec fn defaults() -> TlsSettingsView {
        TlsSettingsView {
            certs_store: None,
            certs_verification: true,
            tls_sni: true,
            alpn_protos: AlpnProtocol::serialized(default_alpn_protocols()),
            session_ticket: None,
            min_tls_version: None,
            max_tls_version: None,
            enable_ech_grease: false,
            permute_extensions: None,
            grease_enabled: None,
            curves: None,
            signature_algorithms: None,
            delegated_credentials: None,
            ciphers: None,
            enable_ocsp_stapling: false,
            enable_signed_cert_timestamps: false,
            cert_compression_algorithm: None,
            key_shares_length_limit: None,
            extension_permutation: None,
            encrypt_then_mac: None,
            padding: None,
        }
    }

    /// Whether the version bounds are in order: the minimum is not later than the maximum
    /// where both are set.
    pub open spec fn well_formed(self) -> bool {
        match (self.min_tls_version, self.max_tls_version) {
            (Some(min), Some(max)) => min.rank_spec() <= max.rank_spec(),
            _ => true,
        }
    }
}

/// Tells whether two texts that may be absent are equal.
fn same_optional_text(a: &Option<String>, b: &Option<String>) -> (same: bool)
    ensures
        same == (optional_text(*a) == optional_text(*b)),
{
    match (a, b) {
        (Some(x), Some(y)) => *x == *y,
        (None, None) => true,
        _ => false,
    }
}

/// Tells whether two lists of extension types are equal.
fn same_code_list(x: &Vec<u16>, y: &Vec<u16>) -> (same: bool)
    ensures
        same == (x@ == y@),
{
    if x.len() != y.len() {
        return false;
    }
    let mut i: usize = 0;
    while i < x.len()
        invariant
            i <= x.len(),
            x@.len() == y@.len(),
            forall|k: int| 0 <= k < i ==> x@[k] == y@[k],
        decreases x.len() - i,
    {
        if x[i] != y[i] {
            return false;
        }
        i += 1;
    }
    assert(x@ =~= y@);
    true
}

/// Tells whether two lists of extension types that may be absent are equal.
fn same_codes(a: &Option<Vec<u16>>, b: &Option<Vec<u16>>) -> (same: bool)
    ensures
        same == (items_of(*a) == items_of(*b)),
{
    match (a, b) {
        (Some(x), Some(y)) => same_code_list(x, y),
        (None, None) => true,
        _ => false,
    }
}

/// Tells whether two lists of compression algorithms are equal.
fn same_algorithm_list(x: &Vec<CertCompressionAlgorithm>, y: &Vec<CertCompressionAlgorithm>) -> (same:
    bool)
    ensures
        same == (x@ == y@),
{
    if x.len() != y.len() {
        return false;
    }
    let mut i: usize = 0;
    while i < x.len()
        invariant
            i <= x.len(),
            x@.len() == y@.len(),
            forall|k: int| 0 <= k < i ==> x@[k] == y@[k],
        decreases x.len() - i,
    {
        if x[i] != y[i] {
            return false;
        }
        i += 1;
    }
    assert(x@ =~= y@);
    true
}

/// Tells whether two lists of compression algorithms that may be absent are equal.
fn same_algorithms(
    a: &Option<Vec<CertCompressionAlgorithm>>,
    b: &Option<Vec<CertCompressionAlgorithm>>,
) -> (same: bool)
    ensures
        same == (items_of(*a) == items_of(*b)),
{
    match (a, b) {
        (Some(x), Some(y)) => same_algorithm_list(x, y),
        (None, None) => true,
        _ => false,
    }
}

/// Tells whether two trust stores that may be absent are equal.
fn same_store(a: &Option<CertsStore>, b: &Option<CertsStore>) -> (same: bool)
    ensures
        same == (store_of(*a) == store_of(*b)),
{
    match (a, b) {
        (Some(x), Some(y)) => x == y,
        (None, None) => true,
        _ => false,
    }
}

/// Copies a text that may be absent.
fn copy_text(text: &Option<String>) -> (copy: Option<String>)
    ensures
        optional_text(copy) == optional_text(*text),
{
    match text {
        Some(t) => Some(t.clone()),
        None => None,
    }
}

/// Copies a list of extension types that may be absent.
fn copy_codes(codes: &Option<Vec<u16>>) -> (copy: Option<Vec<u16>>)
    ensures
        items_of(copy) == items_of(*codes),
{
    match codes {
        Some(list) => {
            let copy = list.clone();
            assert(copy@ =~= list@);
            Some(copy)
        },
        None => None,
    }
}

/// Copies a list of compression algorithms that may be absent.
fn copy_algorithms(algorithms: &Option<Vec<CertCompressionAlgorithm>>) -> (copy: Option<
    Vec<CertCompressionAlgorithm>,
>)
    ensures
        items_of(copy) == items_of(*algorithms),
{
    match algorithms {
        Some(list) => {
            let mut copy: Vec<CertCompressionAlgorithm> = Vec::new();
            let mut i: usize = 0;
            while i < list.len()
                invariant
                    i <= list.len(),
                    copy@ == list@.take(i as int),
                decreases list.len() - i,
            {
                copy.push(list[i]);
                i += 1;
                assert(copy@ =~= list@.take(i as int));
            }
            assert(list@.take(i as int) == list@);
            Some(copy)
        },
        None => None,
    }
}

/// Copies a trust store that may be absent.
fn copy_store(store: &Option<CertsStore>) -> (copy: Option<CertsStore>)
    ensures
        store_of(copy) == store_of(*store),
{
    match store {
        Some(s) => Some(s.clone()),
        None => None,
    }
}

impl Clone for TlsSettings {
    /// A copy of the profile: every parameter of the copy is that of the profile. The trust
    /// store is shared with the copy where it is a shared one.
    fn clone(&self) -> (copy: Self)
        ensures
            copy@ == self@,
    {
        let alpn_protos = self.alpn_protos.clone();
        assert(alpn_protos@ =~= self.alpn_protos@);
        TlsSettings {
            certs_store: copy_store(&self.certs_store),
            certs_verification: self.certs_verification,
            tls_sni: self.tls_sni,
            alpn_protos,
            session_ticket: self.session_ticket,
            min_tls_version: self.min_tls_version,
            max_tls_version: self.max_tls_version,
            enable_ech_grease: self.enable_ech_grease,
            permute_extensions: self.permute_extensions,
            grease_enabled: self.grease_enabled,
            curves: copy_text(&self.curves),
            signature_algorithms: copy_text(&self.signature_algorithms),
            delegated_credentials: copy_text(&self.delegated_credentials),
            ciphers: copy_text(&self.ciphers),
            enable_ocsp_stapling: self.enable_ocsp_stapling,
            enable_signed_cert_timestamps: self.enable_signed_cert_timestamps,
            cert_compression_algorithm: copy_algorithms(&self.cert_compression_algorithm),
            key_shares_length_limit: self.key_shares_length_limit,
            extension_permutation: copy_codes(&self.extension_permutation),
            encrypt_then_mac: self.encrypt_then_mac,
            padding: self.padding,
        }
    }
}

impl PartialEq for TlsSettings {
    /// Profiles are equal if every parameter of the one is that of the other.
    fn eq(&self, other: &Self) -> (same: bool) {
        same_store(&self.certs_store, &other.certs_store) && self.certs_verification
            == other.certs_verification && self.tls_sni == other.tls_sni && same_bytes(
            self.alpn_protos.as_slice(),
            other.alpn_protos.as_slice(),
        ) && self.session_ticket == other.session_ticket && self.min_tls_version
            == other.min_tls_version && self.max_tls_version == other.max_tls_version
            && self.enable_ech_grease == other.enable_ech_grease && self.permute_extensions
            == other.permute_extensions && self.grease_enabled == other.grease_enabled
            && same_optional_text(&self.curves, &other.curves) && same_optional_text(
            &self.signature_algorithms,
            &other.signature_algorithms,
        ) && same_optional_text(&self.delegated_credentials, &other.delegated_credentials) && same_optional_text(
            &self.ciphers,
            &other.ciphers,
        ) && self.enable_ocsp_stapling == other.enable_ocsp_stapling
            && self.enable_signed_cert_timestamps == other.enable_signed_cert_timestamps
            && same_algorithms(
            &self.cert_compression_algorithm,
            &other.cert_compression_algorithm,
        ) && self.key_shares_length_limit == other.key_shares_length_limit && same_codes(
            &self.extension_permutation,
            &other.extension_permutation,
        ) && self.encrypt_then_mac == other.encrypt_then_mac && self.padding == other.padding
    }
}

impl Eq for TlsSettings {

}

impl vstd::std_specs::cmp::PartialEqSpecImpl for TlsSettings {
    open spec fn obeys_eq_spec() -> bool {
        true
    }

    open spec fn eq_spec(&self, other: &Self) -> bool {
        self@ == other@
    }
}

impl Default for TlsSettings {
    fn default() -> (settings: TlsSettings)
        ensures
            settings@ == TlsSettingsView::defaults(),
    {
        TlsSettings::new()
    }
}

impl TlsSettings {
    /// The profile in which nothing has been chosen.
    pub fn new() -> (settings: TlsSettings)
        ensures
            settings@ == TlsSettingsView::defaults(),
            settings@.well_formed(),
    {
        let default_alpn: Vec<AlpnProtocol> = vec![AlpnProtocol::Http2, AlpnProtocol::Http1];
        assert(default_alpn@ =~= default_alpn_protocols());
        TlsSettings {
            certs_store: None,
            certs_verification: true,
            tls_sni: true,
            alpn_protos: AlpnProtocol::serialize(default_alpn.as_slice()),
            session_ticket: None,
            min_tls_version: None,
            max_tls_version: None,
            enable_ech_grease: false,
            permute_extensions: None,
            grease_enabled: None,
            curves: None,
            signature_algorithms: None,
            delegated_credentials: None,
            ciphers: None,
            enable_ocsp_stapling: false,
            enable_signed_cert_timestamps: false,
            cert_compression_algorithm: None,
            key_shares_length_limit: None,
            extension_permutation: None,
            encrypt_then_mac: None,
            padding: None,
        }
    }

    /// Starts from the profile in which nothing has been chosen; the setters choose, and
    /// [`TlsSettings::build`] checks the outcome.
    pub fn builder() -> (settings: TlsSettings)
        ensures
            settings@ == TlsSettingsView::defaults(),
    {
        TlsSettings::new()
    }

    /// Tells whether the version bounds are in order.
    pub fn is_well_formed(&self) -> (b: bool)
        ensures
            b == self@.well_formed(),
    {
        match (self.min_tls_version, self.max_tls_version) {
            (Some(min), Some(max)) => min.rank() <= max.rank(),
            _ => true,
        }
    }

    /// Checks the profile once it is complete, and hands it out unchanged if its version
    /// bounds are in order.
    pub fn build(self) -> (r: Result<TlsSettings, SettingsError>)
        ensures
            match r {
                Ok(settings) => self@.well_formed() && settings@ == self@,
                Err(e) => !self@.well_formed() && e == SettingsError::VersionBoundsInverted,
            },
    {
        if self.is_well_formed() {
            Ok(self)
        } else {
            Err(SettingsError::VersionBoundsInverted)
        }
    }

    /// Sets `certs_store`: root certificates store.
    pub fn certs_store(self, v: Option<CertsStore>) -> (settings: TlsSettings)
        ensures
            settings@ == (TlsSettingsView { certs_store: store_of(v), ..self@ }),
    {
        let mut settings = self;
        settings.certs_store = v;
        settings
    }

    /// Sets `certs_verification`: verify certificates.
    pub fn certs_verification(self, v: bool) -> (settings: TlsSettings)
        ensures
            settings@ == (TlsSettingsView { certs_verification: v, ..self@ }),
    {
        let mut settings = self;
        settings.certs_verification = v;
        settings
    }

    /// Sets `tls_sni`: send the server name indication extension.
    pub fn tls_sni(self, v: bool) -> (settings: TlsSettings)
        ensures
            settings@ == (TlsSettingsView { tls_sni: v, ..self@ }),
    {
        let mut settings = self;
        settings.tls_sni = v;
        settings
    }

    /// Sets `alpn_protos`: the ALPN list to advertise, in wire form; empty for no ALPN extension.
    pub fn alpn_protos(self, v: &[AlpnProtocol]) -> (settings: TlsSettings)
        ensures
            settings@ == (TlsSettingsView { alpn_protos: AlpnProtocol::serialized(v@), ..self@ }),
    {
        let mut settings = self;
        settings.alpn_protos = AlpnProtocol::serialize(v);
        settings
    }

    /// Sets `session_ticket`: session tickets; unset leaves the engine's default.
    pub fn session_ticket(self, v: bool) -> (settings: TlsSettings)
        ensures
            settings@ == (TlsSettingsView { session_ticket: Some(v), ..self@ }),
    {
        let mut settings = self;
        settings.session_ticket = Some(v);
        settings
    }

    /// Sets `min_tls_version`: the minimum TLS version to use.
    pub fn min_tls_version(self, v: TlsVersion) -> (settings: TlsSettings)
        ensures
            settings@ == (TlsSettingsView { min_tls_version: Some(v), ..self@ }),
    {
        let mut settings = self;
        settings.min_tls_version = Some(v);
        settings
    }

    /// Sets `max_tls_version`: the maximum TLS version to use.
    pub fn max_tls_version(self, v: TlsVersion) -> (settings: TlsSettings)
        ensures
            settings@ == (TlsSettingsView { max_tls_version: Some(v), ..self@ }),
    {
        let mut settings = self;
        settings.max_tls_version = Some(v);
        settings
    }

    /// Sets `enable_ech_grease`: send a decoy encrypted ClientHello configuration.
    pub fn enable_ech_grease(self, v: bool) -> (settings: TlsSettings)
        ensures
            settings@ == (TlsSettingsView { enable_ech_grease: v, ..self@ }),
    {
        let mut settings = self;
        settings.enable_ech_grease = v;
        settings
    }

    /// Sets `permute_extensions`: allow the extensions to be permuted.
    pub fn permute_extensions(self, v: bool) -> (settings: TlsSettings)
        ensures
            settings@ == (TlsSettingsView { permute_extensions: Some(v), ..self@ }),
    {
        let mut settings = self;
        settings.permute_extensions = Some(v);
        settings
    }

    /// Sets `grease_enabled`: send GREASE values.
    pub fn grease_enabled(self, v: bool) -> (settings: TlsSettings)
        ensures
            settings@ == (TlsSettingsView { grease_enabled: Some(v), ..self@ }),
    {
        let mut settings = self;
        settings.grease_enabled = Some(v);
        settings
    }

    /// Sets `curves`: the groups to offer, as the engine takes them.
    pub fn curves(self, v: &[SslCurve]) -> (settings: TlsSettings)
        ensures
            settings@ == (TlsSettingsView { curves: Some(SslCurve::serialized(v@)), ..self@ }),
    {
        let mut settings = self;
        settings.curves = Some(SslCurve::serialize(v));
        settings
    }

    /// Sets `signature_algorithms`: the signature algorithms to offer, as the engine takes them.
    pub fn signature_algorithms(self, v: &[SignatureAlgorithm]) -> (settings: TlsSettings)
        ensures
            settings@ == (TlsSettingsView { signature_algorithms: Some(SignatureAlgorithm::serialized(v@)), ..self@ }),
    {
        let mut settings = self;
        settings.signature_algorithms = Some(SignatureAlgorithm::serialize(v));
        settings
    }

    /// Sets `delegated_credentials`: the algorithms accepted for delegated credentials, as the engine takes them.
    pub fn delegated_credentials(self, v: &[SignatureAlgorithm]) -> (settings: TlsSettings)
        ensures
            settings@ == (TlsSettingsView { delegated_credentials: Some(SignatureAlgorithm::serialized(v@)), ..self@ }),
    {
        let mut settings = self;
        settings.delegated_credentials = Some(SignatureAlgorithm::serialize(v));
        settings
    }

    /// Sets `ciphers`: the cipher suites to offer, as the engine takes them; their order is the order offered.
    pub fn ciphers(self, v: &[CipherSuite]) -> (settings: TlsSettings)
        ensures
            settings@ == (TlsSettingsView { ciphers: Some(CipherSuite::serialized(v@)), ..self@ }),
    {
        let mut settings = self;
        settings.ciphers = Some(CipherSuite::serialize(v));
        settings
    }

    /// Sets `enable_ocsp_stapling`: request a stapled OCSP response.
    pub fn enable_ocsp_stapling(self, v: bool) -> (settings: TlsSettings)
        ensures
            settings@ == (TlsSettingsView { enable_ocsp_stapling: v, ..self@ }),
    {
        let mut settings = self;
        settings.enable_ocsp_stapling = v;
        settings
    }

    /// Sets `enable_signed_cert_timestamps`: request signed certificate timestamps.
    pub fn enable_signed_cert_timestamps(self, v: bool) -> (settings: TlsSettings)
        ensures
            settings@ == (TlsSettingsView { enable_signed_cert_timestamps: v, ..self@ }),
    {
        let mut settings = self;
        settings.enable_signed_cert_timestamps = v;
        settings
    }

    /// Sets `cert_compression_algorithm`: the certificate compression algorithms to offer.
    pub fn cert_compression_algorithm(self, v: Vec<CertCompressionAlgorithm>) -> (settings: TlsSettings)
        ensures
            settings@ == (TlsSettingsView { cert_compression_algorithm: Some(v@), ..self@ }),
    {
        let mut settings = self;
        settings.cert_compression_algorithm = Some(v);
        settings
    }

    /// Sets `key_shares_length_limit`: the key shares length limit.
    pub fn key_shares_length_limit(self, v: u8) -> (settings: TlsSettings)
        ensures
            settings@ == (TlsSettingsView { key_shares_length_limit: Some(v), ..self@ }),
    {
        let mut settings = self;
        settings.key_shares_length_limit = Some(v);
        settings
    }

    /// Sets `extension_permutation`: the order of the extensions in the ClientHello, by extension type.
    pub fn extension_permutation(self, v: Vec<u16>) -> (settings: TlsSettings)
        ensures
            settings@ == (TlsSettingsView { extension_permutation: Some(v@), ..self@ }),
    {
        let mut settings = self;
        settings.extension_permutation = Some(v);
        settings
    }

    /// Sets `encrypt_then_mac`: encrypt-then-MAC; unset leaves the engine's default.
    pub fn encrypt_then_mac(self, v: bool) -> (settings: TlsSettings)
        ensures
            settings@ == (TlsSettingsView { encrypt_then_mac: Some(v), ..self@ }),
    {
        let mut settings = self;
        settings.encrypt_then_mac = Some(v);
        settings
    }

    /// Sets `padding`: clientHello padding; unset leaves the engine's default.
    pub fn padding(self, v: bool) -> (settings: TlsSettings)
        ensures
            settings@ == (TlsSettingsView { padding: Some(v), ..self@ }),
    {
        let mut settings = self;
        settings.padding = Some(v);
        settings
    }
}

} // verus!
