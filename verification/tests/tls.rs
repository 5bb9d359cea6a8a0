use irongate::tls::alpn::AlpnProtocol;
use irongate::tls::certs_store::CertsStore;
use irongate::tls::cipher::CipherSuite;
use irongate::tls::client::curl_7_61_1;
use irongate::tls::compression::CertCompressionAlgorithm;
use irongate::tls::curve::SslCurve;
use irongate::tls::settings::SettingsError;
use irongate::tls::settings::TlsSettings;
use irongate::tls::signature::SignatureAlgorithm;
use irongate::tls::version::TlsVersion;
use irongate::tls_openssl::certs_store::OpensslCertsStore;
use irongate::tls_openssl::configuration::Configuration;
use irongate::tls_openssl::settings::OpensslSettings;
use irongate::tls_openssl::translation::EngineCall;
use irongate::tls_openssl::translation::OptionBits;
use irongate::tls_openssl::translation::OptionFeature;
use irongate::tls_openssl::utils::cvt;
use irongate::tls_openssl::utils::cvt_long;

#[test]
fn alpn_lists_are_length_prefixed() {
    assert_eq!(AlpnProtocol::serialize(&[]), Vec::<u8>::new());
    assert_eq!(AlpnProtocol::serialize(&[AlpnProtocol::Http2]), b"\x02h2".to_vec());
    assert_eq!(
        AlpnProtocol::serialize(&[AlpnProtocol::Http2, AlpnProtocol::Http1]),
        b"\x02h2\x08http/1.1".to_vec()
    );
    assert_eq!(AlpnProtocol::Http1.as_bytes(), b"\x08http/1.1".to_vec());
    assert_eq!(AlpnProtocol::Http1.len(), 8);
    assert_eq!(AlpnProtocol::Http2.len(), 2);
    assert_eq!(AlpnProtocol::default(), AlpnProtocol::Http1);
}

#[test]
fn names_are_joined_by_colons() {
    assert_eq!(CipherSuite::serialize(&[]), "");
    assert_eq!(CipherSuite::serialize(&[CipherSuite::TLS_AES_128_GCM_SHA256]), "TLS_AES_128_GCM_SHA256");
    assert_eq!(
        CipherSuite::serialize(&[
            CipherSuite::TLS_RSA_WITH_3DES_EDE_CBC_SHA,
            CipherSuite::TLS_AES_128_GCM_SHA256,
            CipherSuite::TLS_RSA_WITH_3DES_EDE_CBC_SHA
        ]),
        "TLS_RSA_WITH_3DES_EDE_CBC_SHA:TLS_AES_128_GCM_SHA256:TLS_RSA_WITH_3DES_EDE_CBC_SHA"
    );
    assert_eq!(
        SslCurve::serialize(&[SslCurve::X25519, SslCurve::SECP256R1, SslCurve::X25519_MLKEM768]),
        "X25519:secp256r1:X25519MLKEM768"
    );
    assert_eq!(SslCurve::X25519_KYBER768_DRAFT00.as_str(), "X25519Kyber768Draft00");
    assert_eq!(
        SignatureAlgorithm::serialize(&[SignatureAlgorithm::ED25519, SignatureAlgorithm::RSA_PKCS1_SHA1]),
        "ed25519:rsa_pkcs1_sha1"
    );
    assert_eq!(CipherSuite::TLS_ECDHE_RSA_WITH_CHACHA20_POLY1305_SHA256.as_str(), "TLS_ECDHE_RSA_WITH_CHACHA20_POLY1305_SHA256");
}

#[test]
fn version_ranks_are_ordered() {
    let ranks: Vec<u8> = [TlsVersion::TLS1_0, TlsVersion::TLS1_1, TlsVersion::TLS1_2, TlsVersion::TLS1_3]
        .iter()
        .map(|v| v.rank())
        .collect();
    assert_eq!(ranks, vec![0, 1, 2, 3]);
}

#[test]
fn default_profile() {
    let settings = TlsSettings::new();
    assert!(settings.certs_store.is_none());
    assert!(settings.certs_verification);
    assert!(settings.tls_sni);
    assert_eq!(settings.alpn_protos, b"\x02h2\x08http/1.1".to_vec());
    assert_eq!(settings.session_ticket, None);
    assert_eq!(settings.min_tls_version, None);
    assert_eq!(settings.max_tls_version, None);
    assert!(!settings.enable_ech_grease);
    assert_eq!(settings.permute_extensions, None);
    assert_eq!(settings.grease_enabled, None);
    assert_eq!(settings.curves, None);
    assert_eq!(settings.signature_algorithms, None);
    assert_eq!(settings.delegated_credentials, None);
    assert_eq!(settings.ciphers, None);
    assert!(!settings.enable_ocsp_stapling);
    assert!(!settings.enable_signed_cert_timestamps);
    assert_eq!(settings.cert_compression_algorithm, None);
    assert_eq!(settings.key_shares_length_limit, None);
    assert_eq!(settings.extension_permutation, None);
    assert_eq!(settings.encrypt_then_mac, None);
    assert_eq!(settings.padding, None);
    assert!(settings.is_well_formed());
    assert_eq!(TlsSettings::default().alpn_protos, settings.alpn_protos);
}

#[test]
fn setters_choose() {
    let settings = TlsSettings::builder()
        .certs_verification(false)
        .tls_sni(false)
        .alpn_protos(&[AlpnProtocol::Http1])
        .enable_ech_grease(true)
        .permute_extensions(true)
        .grease_enabled(false)
        .curves(&[SslCurve::X25519, SslCurve::SECP384R1])
        .delegated_credentials(&[SignatureAlgorithm::ECDSA_SHA1])
        .cert_compression_algorithm(vec![CertCompressionAlgorithm::Brotli, CertCompressionAlgorithm::Zstd])
        .key_shares_length_limit(2)
        .extension_permutation(vec![0, 16, 43])
        .build()
        .unwrap();
    assert!(!settings.certs_verification);
    assert!(!settings.tls_sni);
    assert_eq!(settings.alpn_protos, b"\x08http/1.1".to_vec());
    assert!(settings.enable_ech_grease);
    assert_eq!(settings.permute_extensions, Some(true));
    assert_eq!(settings.grease_enabled, Some(false));
    assert_eq!(settings.curves.as_deref(), Some("X25519:secp384r1"));
    assert_eq!(settings.delegated_credentials.as_deref(), Some("ecdsa_sha1"));
    assert_eq!(
        settings.cert_compression_algorithm,
        Some(vec![CertCompressionAlgorithm::Brotli, CertCompressionAlgorithm::Zstd])
    );
    assert_eq!(settings.key_shares_length_limit, Some(2));
    assert_eq!(settings.extension_permutation, Some(vec![0, 16, 43]));
}

#[test]
fn inverted_version_bounds_are_refused() {
    let inverted = TlsSettings::builder().min_tls_version(TlsVersion::TLS1_3).max_tls_version(TlsVersion::TLS1_2);
    assert!(!inverted.is_well_formed());
    assert_eq!(inverted.build().unwrap_err(), SettingsError::VersionBoundsInverted);
    let equal = TlsSettings::builder().min_tls_version(TlsVersion::TLS1_2).max_tls_version(TlsVersion::TLS1_2);
    assert!(equal.build().is_ok());
    assert!(TlsSettings::builder().min_tls_version(TlsVersion::TLS1_3).build().is_ok());
    assert!(TlsSettings::builder().max_tls_version(TlsVersion::TLS1_0).build().is_ok());
}

#[test]
fn trust_store_copies_on_write() {
    let empty = CertsStore::empty();
    assert!(empty.certs().is_empty());
    assert!(!empty.owns_its_certs());
    let mut store = CertsStore::empty();
    store.add_cert(vec![1, 2, 3]);
    store.add_cert(vec![4]);
    assert!(store.owns_its_certs());
    assert_eq!(store.certs().to_vec(), vec![vec![1u8, 2, 3], vec![4u8]]);
    // the store that was added to is unchanged where another was made from the same set
    assert!(empty.certs().is_empty());
    let builtin = CertsStore::load();
    assert!(!builtin.owns_its_certs());
    assert!(!builtin.certs().is_empty());
    let mut grown = builtin.clone();
    grown.add_cert(vec![9]);
    assert_eq!(grown.certs().len(), builtin.certs().len() + 1);
    assert_eq!(grown.certs()[..builtin.certs().len()], builtin.certs()[..]);
    assert_eq!(grown.certs().last(), Some(&vec![9u8]));
}

#[test]
fn curl_profile_without_trust_store() {
    let settings = curl_7_61_1::settings(false);
    assert!(settings.certs_store.is_none());
    assert_eq!(settings.min_tls_version, Some(TlsVersion::TLS1_0));
    assert_eq!(settings.max_tls_version, Some(TlsVersion::TLS1_3));
    assert_eq!(settings.session_ticket, Some(false));
    assert!(settings.alpn_protos.is_empty());
    assert_eq!(
        settings.ciphers.as_deref(),
        Some("TLS_AES_128_GCM_SHA256:TLS_AES_256_GCM_SHA384:TLS_CHACHA20_POLY1305_SHA256:TLS_ECDHE_ECDSA_WITH_AES_128_CBC_SHA:TLS_ECDHE_ECDSA_WITH_AES_256_CBC_SHA:TLS_ECDHE_RSA_WITH_AES_128_CBC_SHA:TLS_ECDHE_RSA_WITH_AES_256_CBC_SHA:TLS_ECDHE_ECDSA_WITH_AES_128_GCM_SHA256:TLS_ECDHE_ECDSA_WITH_AES_256_GCM_SHA384:TLS_ECDHE_RSA_WITH_AES_128_GCM_SHA256:TLS_ECDHE_RSA_WITH_AES_256_GCM_SHA384:TLS_ECDHE_RSA_WITH_CHACHA20_POLY1305_SHA256:TLS_ECDHE_ECDSA_WITH_CHACHA20_POLY1305_SHA256")
    );
    assert_eq!(
        settings.signature_algorithms.as_deref(),
        Some("rsa_pss_rsae_sha256:ecdsa_secp256r1_sha256:ed25519:rsa_pss_rsae_sha384:rsa_pss_rsae_sha512:rsa_pkcs1_sha256:rsa_pkcs1_sha384:rsa_pkcs1_sha512:ecdsa_secp384r1_sha384:rsa_pkcs1_sha1:ecdsa_sha1")
    );
    assert!(settings.enable_ocsp_stapling);
    assert!(settings.enable_signed_cert_timestamps);
    assert_eq!(settings.encrypt_then_mac, Some(false));
    assert_eq!(settings.padding, Some(false));
    assert!(settings.certs_verification);
    assert!(settings.tls_sni);
    assert_eq!(settings.curves, None);
    assert!(settings.is_well_formed());
}

#[test]
fn curl_profile_translates_without_trust_store() {
    let ready = OpensslSettings::new(curl_7_61_1::settings(false)).unwrap();
    assert!(ready.certs_store.is_none());
    let calls = ready.engine_calls();
    assert_eq!(
        calls,
        vec![
            EngineCall::SetVerify { peer: true },
            EngineCall::SetAlpnProtos(vec![]),
            EngineCall::SetOptions(0x4000),
            EngineCall::SetMinProtoVersion(TlsVersion::TLS1_0),
            EngineCall::SetMaxProtoVersion(TlsVersion::TLS1_3),
            EngineCall::SetSigalgsList(ready.signature_algorithms.clone().unwrap()),
            EngineCall::SetCipherList(ready.ciphers.clone().unwrap()),
            EngineCall::RequestOcspStatus,
            EngineCall::EnableSignedCertTimestamps,
            EngineCall::SetOptions(0x0008_0000),
            EngineCall::ClearOptions(0x0000_0010),
        ]
    );
    // translating the same profile again gives the same calls
    let again = OpensslSettings::new(curl_7_61_1::settings(false)).unwrap();
    assert_eq!(again.engine_calls(), calls);
}

#[test]
fn curl_profile_with_trust_store() {
    let settings = curl_7_61_1::settings(true);
    assert!(settings.certs_store.is_some());
    let ready = OpensslSettings::new(settings).unwrap();
    assert_eq!(ready.engine_calls()[0], EngineCall::SetVerifyCertStore);
    assert_eq!(ready.engine_calls().len(), 12);
}

#[test]
fn default_profile_translates_to_two_calls() {
    let ready = OpensslSettings::new(TlsSettings::new()).unwrap();
    assert_eq!(
        ready.engine_calls(),
        vec![
            EngineCall::SetVerify { peer: true },
            EngineCall::SetAlpnProtos(b"\x02h2\x08http/1.1".to_vec()),
        ]
    );
}

#[test]
fn translation_order_and_conditions() {
    let settings = TlsSettings::builder()
        .certs_verification(false)
        .session_ticket(true)
        .curves(&[SslCurve::X25519])
        .enable_ocsp_stapling(true)
        .encrypt_then_mac(true)
        .padding(true)
        .max_tls_version(TlsVersion::TLS1_2);
    let calls = OpensslSettings::new(settings).unwrap().engine_calls();
    assert_eq!(
        calls,
        vec![
            EngineCall::SetVerify { peer: false },
            EngineCall::SetAlpnProtos(b"\x02h2\x08http/1.1".to_vec()),
            EngineCall::SetMaxProtoVersion(TlsVersion::TLS1_2),
            EngineCall::SetGroupsList("X25519".to_string()),
            EngineCall::RequestOcspStatus,
        ]
    );
    // asking for signed certificate timestamps alone also requests the OCSP status
    let sct = TlsSettings::builder().enable_signed_cert_timestamps(true);
    let calls = OpensslSettings::new(sct).unwrap().engine_calls();
    assert_eq!(calls[2..].to_vec(), vec![EngineCall::RequestOcspStatus, EngineCall::EnableSignedCertTimestamps]);
}

#[test]
fn malformed_certificates_give_no_store() {
    let mut store = CertsStore::empty();
    store.add_cert(vec![0x30, 0x03, 0x01, 0x02, 0x03]);
    assert!(OpensslCertsStore::new(store.clone()).is_err());
    assert!(OpensslSettings::new(TlsSettings::builder().certs_store(Some(store))).is_err());
    assert!(OpensslCertsStore::new(CertsStore::empty()).is_ok());
    let builtin = OpensslCertsStore::new(CertsStore::load()).unwrap();
    assert!(!builtin.as_native().all_certificates().is_empty());
    let native = openssl::x509::store::X509StoreBuilder::new().unwrap().build();
    let taken = OpensslCertsStore::from_native(native);
    assert!(taken.as_native().all_certificates().is_empty());
}

#[test]
fn statuses_of_engine_calls() {
    assert_eq!(cvt(1).unwrap(), 1);
    assert_eq!(cvt(7).unwrap(), 7);
    assert!(cvt(0).is_err());
    assert!(cvt(-1).is_err());
    assert_eq!(cvt_long(1).unwrap(), 1);
    assert!(cvt_long(0).is_err());
    assert!(cvt_long(i64::MIN).is_err());
}

#[test]
fn profiles_compare_by_their_parameters() {
    assert_eq!(TlsSettings::new(), TlsSettings::default());
    assert_eq!(curl_7_61_1::settings(false), curl_7_61_1::settings(false));
    assert_eq!(curl_7_61_1::settings(true), curl_7_61_1::settings(true));
    assert_ne!(curl_7_61_1::settings(true), curl_7_61_1::settings(false));
    assert_ne!(TlsSettings::new(), curl_7_61_1::settings(false));
    assert_ne!(TlsSettings::new(), TlsSettings::new().padding(true));
    assert_ne!(TlsSettings::new().padding(false), TlsSettings::new().padding(true));
    assert_ne!(TlsSettings::new(), TlsSettings::new().extension_permutation(vec![]));
    assert_ne!(
        TlsSettings::new().extension_permutation(vec![1, 2]),
        TlsSettings::new().extension_permutation(vec![1, 3])
    );
    assert_eq!(
        TlsSettings::new().curves(&[SslCurve::X25519]).clone(),
        TlsSettings::new().curves(&[SslCurve::X25519])
    );
    assert_ne!(TlsSettings::new().curves(&[SslCurve::X25519]), TlsSettings::new().curves(&[]));
}

#[test]
fn trust_stores_compare_by_their_certificates() {
    let mut owned = CertsStore::empty();
    assert_eq!(owned, CertsStore::empty());
    owned.add_cert(vec![1, 2]);
    let mut other = CertsStore::empty();
    other.add_cert(vec![1, 2]);
    assert_eq!(owned, other);
    assert_eq!(owned, owned.clone());
    other.add_cert(vec![]);
    assert_ne!(owned, other);
    let mut changed = CertsStore::empty();
    changed.add_cert(vec![1, 3]);
    assert_ne!(owned, changed);
    assert_eq!(CertsStore::load(), CertsStore::load());
    assert_ne!(CertsStore::load(), CertsStore::empty());
}

#[test]
fn option_bits_of_toggled_features() {
    assert_eq!(OptionFeature::SessionTicket.bits_to_switch_off(), OptionBits { set: 0x4000, clear: 0 });
    assert_eq!(OptionFeature::EncryptThenMac.bits_to_switch_off(), OptionBits { set: 0x80000, clear: 0 });
    assert_eq!(OptionFeature::Padding.bits_to_switch_off(), OptionBits { set: 0, clear: 0x10 });
}

#[test]
fn copies_of_profiles_and_stores_are_equal_and_independent() {
    let profile = curl_7_61_1::settings(true).curves(&[SslCurve::X25519]).extension_permutation(vec![5, 0]);
    let copy = profile.clone();
    assert_eq!(copy, profile);
    assert_eq!(copy.padding(true).padding, Some(true));
    assert_eq!(profile.padding, Some(false));
    let store = CertsStore::load();
    let mut copy = store.clone();
    assert_eq!(copy, store);
    assert!(!copy.owns_its_certs());
    copy.add_cert(vec![1]);
    assert!(copy.owns_its_certs());
    assert_ne!(copy, store);
    let second = copy.clone();
    assert!(second.owns_its_certs());
    assert_eq!(second, copy);
}

#[test]
fn configuring_stops_at_the_first_refusal() {
    let ready = OpensslSettings::new(curl_7_61_1::settings(false)).unwrap();
    let calls = ready.engine_calls();
    let mut configuration = Configuration::begin(&ready);
    let mut made = Vec::new();
    while let Some(call) = configuration.next_call() {
        made.push(call.clone());
        configuration.report(true);
    }
    assert_eq!(made, calls);
    assert!(configuration.is_complete());
    assert!(!configuration.was_refused());
    configuration.report(false);
    assert!(configuration.is_complete());

    let mut configuration = Configuration::begin(&ready);
    assert!(!configuration.is_complete());
    assert_eq!(configuration.next_call(), Some(&calls[0]));
    configuration.report(true);
    assert_eq!(configuration.next_call(), Some(&calls[1]));
    configuration.report(false);
    assert_eq!(configuration.next_call(), None);
    assert!(configuration.was_refused());
    configuration.report(true);
    assert_eq!(configuration.next_call(), None);
    assert!(!configuration.is_complete());
}

#[test]
fn translation_depends_on_the_handshake_parameters_alone() {
    let first = curl_7_61_1::settings(false);
    let second = curl_7_61_1::settings(false)
        .tls_sni(false)
        .grease_enabled(true)
        .permute_extensions(true)
        .enable_ech_grease(true)
        .key_shares_length_limit(3)
        .delegated_credentials(&[SignatureAlgorithm::ED25519])
        .cert_compression_algorithm(vec![CertCompressionAlgorithm::Zlib])
        .extension_permutation(vec![1]);
    assert_ne!(first, second);
    let first_calls = OpensslSettings::new(first).unwrap().engine_calls();
    let second_calls = OpensslSettings::new(second).unwrap().engine_calls();
    assert_eq!(first_calls, second_calls);
    let third = curl_7_61_1::settings(false).padding(true);
    assert_ne!(OpensslSettings::new(third).unwrap().engine_calls(), first_calls);
}

#[test]
fn builtin_store_holds_the_builtin_roots_in_order() {
    let store = CertsStore::load();
    let roots = webpki_root_certs::TLS_SERVER_ROOT_CERTS;
    assert_eq!(store.certs().len(), roots.len());
    for (held, root) in store.certs().iter().zip(roots.iter()) {
        assert_eq!(held.as_slice(), root.as_ref());
    }
    assert!(!store.owns_its_certs());
}

#[test]
fn native_store_is_handed_out_as_held() {
    let mut builder = openssl::x509::store::X509StoreBuilder::new().unwrap();
    let root = webpki_root_certs::TLS_SERVER_ROOT_CERTS[0].as_ref();
    builder.add_cert(openssl::x509::X509::from_der(root).unwrap()).unwrap();
    let taken = OpensslCertsStore::from_native(builder.build());
    let held = taken.as_native().all_certificates();
    assert_eq!(held.len(), 1);
    assert_eq!(held.get(0).unwrap().to_der().unwrap(), root.to_vec());
}

#[test]
fn verification_does_not_change_the_calls_that_shape_the_hello() {
    let first = curl_7_61_1::settings(false);
    let second = curl_7_61_1::settings(true).certs_verification(false);
    let first_calls = OpensslSettings::new(first).unwrap().engine_calls();
    let second_calls = OpensslSettings::new(second).unwrap().engine_calls();
    assert_ne!(first_calls, second_calls);
    assert_eq!(first_calls[0], EngineCall::SetVerify { peer: true });
    assert_eq!(second_calls[..2], [EngineCall::SetVerifyCertStore, EngineCall::SetVerify { peer: false }]);
    assert_eq!(first_calls[1..], second_calls[2..]);
}

#[test]
fn native_store_holds_the_certificates_of_the_model() {
    let mut store = CertsStore::empty();
    let roots = webpki_root_certs::TLS_SERVER_ROOT_CERTS;
    store.add_cert(roots[0].as_ref().to_vec());
    store.add_cert(roots[1].as_ref().to_vec());
    store.add_cert(roots[0].as_ref().to_vec());
    let native = OpensslCertsStore::new(store).unwrap();
    let mut held: Vec<Vec<u8>> =
        native.as_native().all_certificates().iter().map(|c| c.to_der().unwrap()).collect();
    held.sort();
    let mut expected = vec![roots[0].as_ref().to_vec(), roots[1].as_ref().to_vec()];
    expected.sort();
    assert_eq!(held, expected);
}
