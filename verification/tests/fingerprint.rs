use irongate::fingerprint::client_hello::ClientHello;
use irongate::fingerprint::client_hello::Extension;
use irongate::fingerprint::ja4::compute_ja4;
use irongate::fingerprint::ja4::grease;
use irongate::fingerprint::parser::parse_client_hello;
use irongate::fingerprint::parser::ParseError;
use irongate::fingerprint::record::fingerprint;
use irongate::fingerprint::record::is_handshake_record;
use irongate::fingerprint::record::observe;
use irongate::fingerprint::record::FingerprintError;
use irongate::fingerprint::sorting::sort_codes;
use irongate::tls::alpn::AlpnProtocol;

fn hello(ciphers: &[u16], extensions: &[u16], alpn: &[&str], has_sni: bool) -> ClientHello {
    ClientHello {
        tls_version: 0x0303,
        cipher_suites: ciphers.to_vec(),
        extensions: extensions.iter().map(|t| Extension { ext_type: *t, data: vec![] }).collect(),
        alpn_protocols: alpn.iter().map(|p| p.to_string()).collect(),
        has_sni,
    }
}

fn extension(ext_type: u16, payload: &[u8]) -> Vec<u8> {
    let mut out = ext_type.to_be_bytes().to_vec();
    out.extend_from_slice(&(payload.len() as u16).to_be_bytes());
    out.extend_from_slice(payload);
    out
}

fn alpn_payload(names: &[&[u8]]) -> Vec<u8> {
    let mut list = Vec::new();
    for name in names {
        list.push(name.len() as u8);
        list.extend_from_slice(name);
    }
    let mut out = (list.len() as u16).to_be_bytes().to_vec();
    out.extend_from_slice(&list);
    out
}

fn record(version: u16, session_id: &[u8], ciphers: &[u16], extensions: &[Vec<u8>]) -> Vec<u8> {
    let mut body = version.to_be_bytes().to_vec();
    body.extend_from_slice(&[0x5a; 32]);
    body.push(session_id.len() as u8);
    body.extend_from_slice(session_id);
    body.extend_from_slice(&((ciphers.len() * 2) as u16).to_be_bytes());
    for c in ciphers {
        body.extend_from_slice(&c.to_be_bytes());
    }
    body.extend_from_slice(&[1, 0]);
    let block: Vec<u8> = extensions.concat();
    body.extend_from_slice(&(block.len() as u16).to_be_bytes());
    body.extend_from_slice(&block);
    let mut out = vec![0x16, 0x03, 0x01];
    out.extend_from_slice(&((body.len() + 4) as u16).to_be_bytes());
    out.push(0x01);
    out.extend_from_slice(&(body.len() as u32).to_be_bytes()[1..]);
    out.extend_from_slice(&body);
    out
}

#[test]
fn empty_hello_gives_sentinels() {
    let hello = hello(&[], &[], &[], false);
    assert_eq!(compute_ja4(&hello), "t13i000000_000000000000_000000000000");
}

#[test]
fn empty_cipher_list_alone_gives_its_sentinel() {
    let fp = compute_ja4(&hello(&[], &[0x000a], &[], true));
    assert_eq!(fp, "t13d000100_000000000000_a8f3e973773c");
}

#[test]
fn empty_extension_list_alone_gives_its_sentinel() {
    let fp = compute_ja4(&hello(&[0x1301], &[], &[], true));
    assert_eq!(fp, "t13d010000_0f2cb44170f4_000000000000");
}

#[test]
fn alpn_only_hello() {
    let mut hello = hello(&[0x1301, 0x1302], &[], &["h2"], false);
    hello.extensions.push(Extension { ext_type: 16, data: vec![0, 3, 2, b'h', b'2'] });
    let fp = compute_ja4(&hello);
    assert!(fp.starts_with("t13i0201h2_"));
    assert_eq!(fp, "t13i0201h2_62ed6f6ca7ad_000000000000");
}

#[test]
fn single_character_alpn_is_doubled() {
    let fp = compute_ja4(&hello(&[], &[], &["h"], false));
    assert_eq!(&fp[8..10], "hh");
    assert_eq!(fp, "t13i0000hh_000000000000_000000000000");
}

#[test]
fn alpn_code_takes_first_and_last_alphanumeric() {
    assert_eq!(&compute_ja4(&hello(&[], &[], &["http/1.1", "h2"], false))[8..10], "h1");
    assert_eq!(&compute_ja4(&hello(&[], &[], &["-a-b-"], false))[8..10], "ab");
    assert_eq!(&compute_ja4(&hello(&[], &[], &["-x-"], false))[8..10], "xx");
    // without an alphanumeric character: the first byte in hexadecimal
    assert_eq!(&compute_ja4(&hello(&[], &[], &["-/"], false))[8..10], "2d");
    assert_eq!(&compute_ja4(&hello(&[], &[], &["\u{1}"], false))[8..10], "01");
    // alphanumeric characters beyond ASCII count
    assert_eq!(compute_ja4(&hello(&[], &[], &["é2"], false)), "t13i0000é2_000000000000_000000000000");
    // the replacement character is not alphanumeric: its first byte is 0xef
    assert_eq!(&compute_ja4(&hello(&[], &[], &["\u{fffd}"], false))[8..10], "ef");
}

#[test]
fn version_and_sni_tags() {
    let mut h = hello(&[], &[], &[], true);
    assert!(compute_ja4(&h).starts_with("t13d"));
    h.tls_version = 0x0304;
    assert!(compute_ja4(&h).starts_with("t12d"));
    h.tls_version = 0x0301;
    h.has_sni = false;
    assert!(compute_ja4(&h).starts_with("t12i"));
}

#[test]
fn extension_count_is_unfiltered_but_digest_is_filtered() {
    let fp = compute_ja4(&hello(&[0x1302, 0x1301], &[0x0000, 0x0010, 0x0a0a, 0x000b, 0x0005, 0x000a], &["h2"], true));
    // six extensions were sent; three of them enter the digest, in ascending order
    assert_eq!(fp, "t13d0206h2_62ed6f6ca7ad_dedc66686760");
}

#[test]
fn grease_values_are_invisible_in_digests_and_cipher_count() {
    let plain = compute_ja4(&hello(&[0x1301, 0x1302], &[0x000a], &[], true));
    for g in [0x0a0au16, 0x1a1a, 0x2a2a, 0xfafa, 0x0a1a, 0xfa0a] {
        assert!(grease(g));
        for at in 0..=2 {
            let mut ciphers = vec![0x1301, 0x1302];
            ciphers.insert(at, g);
            ciphers.insert(at, g);
            assert_eq!(compute_ja4(&hello(&ciphers, &[0x000a], &[], true)), plain);
        }
        for at in 0..=1 {
            let mut extensions = vec![0x000a];
            extensions.insert(at, g);
            let fp = compute_ja4(&hello(&[0x1301, 0x1302], &extensions, &[], true));
            assert_eq!(&fp[..6], "t13d02");
            assert_eq!(&fp[10..], &plain[10..]);
        }
    }
    assert!(!grease(0x1301));
    assert!(!grease(0x0a0b));
    assert!(!grease(0x000a));
}

#[test]
fn counts_have_at_least_two_digits() {
    let ciphers: Vec<u16> = (1..=9).collect();
    assert!(compute_ja4(&hello(&ciphers, &[], &[], false)).starts_with("t13i0900"));
    let ciphers: Vec<u16> = (1..=12).collect();
    let extensions: Vec<u16> = (1..=123).collect();
    assert!(compute_ja4(&hello(&ciphers, &extensions, &[], false)).starts_with("t13i1212300_"));
}

#[test]
fn codes_are_sorted_ascending() {
    assert_eq!(sort_codes(&vec![]), Vec::<u16>::new());
    assert_eq!(sort_codes(&vec![3, 1, 2, 1, 0xffff, 0]), vec![0, 1, 1, 2, 3, 0xffff]);
    let a = compute_ja4(&hello(&[0x1302, 0x0005, 0xc02b], &[], &[], false));
    let b = compute_ja4(&hello(&[0xc02b, 0x1302, 0x0005], &[], &[], false));
    assert_eq!(a, b);
}

#[test]
fn parses_a_client_hello() {
    let data = record(
        0x0303,
        &[7; 32],
        &[0x1a1a, 0x1301, 0x1302],
        &[
            extension(0x0000, &[0, 3, 1, 2, 3]),
            extension(0x0010, &alpn_payload(&[b"h2", b"http/1.1"])),
            extension(0x002b, &[2, 3, 4]),
        ],
    );
    let hello = parse_client_hello(&data).unwrap();
    assert_eq!(hello.tls_version, 0x0303);
    assert_eq!(hello.cipher_suites, vec![0x1a1a, 0x1301, 0x1302]);
    assert_eq!(hello.alpn_protocols, vec!["h2".to_string(), "http/1.1".to_string()]);
    assert!(hello.has_sni);
    let types: Vec<u16> = hello.extensions.iter().map(|e| e.ext_type).collect();
    assert_eq!(types, vec![0, 16, 0x2b]);
    assert_eq!(hello.extensions[0].data, vec![0, 3, 1, 2, 3]);
    assert_eq!(hello.extensions[2].data, vec![2, 3, 4]);
    assert!(compute_ja4(&hello).starts_with("t13d0203h2_62ed6f6ca7ad_"));
}

#[test]
fn fingerprint_of_a_record() {
    let data = record(0x0303, &[], &[0x1301, 0x1302], &[extension(0x0010, &alpn_payload(&[b"h2"]))]);
    assert!(is_handshake_record(&data));
    assert_eq!(fingerprint(&data).unwrap(), "t13i0201h2_62ed6f6ca7ad_000000000000");
    // the same bytes give the same fingerprint
    assert_eq!(fingerprint(&data), fingerprint(&data.clone()));
    // bytes behind the extension block do not matter
    let mut padded = data.clone();
    padded.resize(4096, 0);
    assert_eq!(fingerprint(&padded), fingerprint(&data));
}

#[test]
fn record_without_extensions_and_without_anything() {
    let data = record(0x0301, &[], &[], &[]);
    let hello = parse_client_hello(&data).unwrap();
    assert_eq!(hello.tls_version, 0x0301);
    assert!(hello.cipher_suites.is_empty());
    assert!(hello.extensions.is_empty());
    assert!(hello.alpn_protocols.is_empty());
    assert!(!hello.has_sni);
    assert_eq!(fingerprint(&data).unwrap(), "t12i000000_000000000000_000000000000");
}

#[test]
fn truncated_records_are_errors() {
    let data = record(
        0x0303,
        &[1, 2, 3],
        &[0x1301, 0x1302],
        &[extension(0x0000, &[9, 9]), extension(0x0010, &alpn_payload(&[b"h2"]))],
    );
    assert!(parse_client_hello(&data).is_ok());
    for len in 0..data.len() {
        let r = parse_client_hello(&data[..len]);
        assert!(r.is_err(), "a record cut to {} bytes was read", len);
    }
    assert_eq!(parse_client_hello(&[]).unwrap_err(), ParseError::BufferTooShort);
    assert_eq!(parse_client_hello(&data[..9]).unwrap_err(), ParseError::BufferTooShort);
    assert_eq!(parse_client_hello(&data[..43]).unwrap_err(), ParseError::BufferTooShort);
    // the header of the first extension is cut
    let headers = data.len() - 6 - 9;
    assert_eq!(parse_client_hello(&data[..headers + 3]).unwrap_err(), ParseError::BufferTooShort);
    // the payload of the first extension is cut
    assert_eq!(
        parse_client_hello(&data[..headers + 5]).unwrap_err(),
        ParseError::MalformedExtensionLength
    );
    // the protocol name inside the ALPN extension is cut
    assert_eq!(
        parse_client_hello(&data[..data.len() - 1]).unwrap_err(),
        ParseError::MalformedExtensionLength
    );
    // the ALPN list length is cut
    assert_eq!(parse_client_hello(&data[..data.len() - 4]).unwrap_err(), ParseError::BufferTooShort);
}

#[test]
fn odd_cipher_list_length_reads_into_the_next_byte() {
    let mut data = record(0x0303, &[], &[0x1301], &[]);
    // make the list three bytes long: the compression length byte becomes its last byte
    data[45] = 3;
    data.insert(48, 0x13);
    // cipher list: 13 01 13 | compression length 01 ...
    let hello = parse_client_hello(&data).unwrap();
    assert_eq!(hello.cipher_suites, vec![0x1301, 0x1301]);
}

#[test]
fn alpn_names_that_are_not_utf8_are_read_lossily() {
    let data = record(0x0303, &[], &[], &[extension(0x0010, &alpn_payload(&[&[0xff, b'a'], b""]))]);
    let hello = parse_client_hello(&data).unwrap();
    assert_eq!(hello.alpn_protocols, vec!["\u{fffd}a".to_string(), String::new()]);
    assert_eq!(&compute_ja4(&hello)[8..], "aa_000000000000_000000000000");
}

#[test]
fn records_without_a_fingerprint() {
    assert_eq!(fingerprint(&[]), Err(FingerprintError::NotHandshake));
    assert_eq!(fingerprint(&[0x17, 0x03, 0x03]), Err(FingerprintError::NotHandshake));
    assert_eq!(fingerprint(&[0x16, 0x02]), Err(FingerprintError::NotHandshake));
    assert_eq!(fingerprint(&[0x16, 0x03]), Err(FingerprintError::Parse(ParseError::BufferTooShort)));
}

#[test]
fn an_empty_first_protocol_name_gives_zeros() {
    assert_eq!(compute_ja4(&hello(&[], &[], &[""], false)), "t13i000000_000000000000_000000000000");
    assert_eq!(compute_ja4(&hello(&[], &[], &["", "h2"], true)), "t13d000000_000000000000_000000000000");
    let empty_name = record(0x0303, &[], &[], &[extension(0x0010, &alpn_payload(&[b"", b"h2"]))]);
    let parsed = parse_client_hello(&empty_name).unwrap();
    assert_eq!(parsed.alpn_protocols, vec![String::new(), "h2".to_string()]);
    assert_eq!(fingerprint(&empty_name).unwrap(), "t13i000100_000000000000_000000000000");
}

#[test]
fn the_scenario_record_is_read_field_by_field() {
    let data: Vec<u8> = [
        &[0x16, 3, 1, 0, 0x3a, 1, 0, 0, 0x36, 3, 3][..],
        &[0u8; 32][..],
        &[0, 0, 4, 0x13, 1, 0x13, 2, 1, 0, 0, 9, 0, 0x10, 0, 5, 0, 3, 2, 0x68, 0x32][..],
    ]
    .concat();
    assert_eq!(data.len(), 63);
    let hello = parse_client_hello(&data).unwrap();
    assert_eq!(hello.tls_version, 0x0303);
    assert_eq!(hello.cipher_suites, vec![0x1301, 0x1302]);
    assert_eq!(hello.extensions.len(), 1);
    assert_eq!(hello.extensions[0].ext_type, 16);
    assert_eq!(hello.extensions[0].data, vec![0, 3, 2, 0x68, 0x32]);
    assert_eq!(hello.alpn_protocols, vec!["h2".to_string()]);
    assert!(!hello.has_sni);
    assert_eq!(fingerprint(&data).unwrap(), "t13i0201h2_62ed6f6ca7ad_000000000000");
}

#[test]
fn reading_inverts_alpn_serialization() {
    let protocols = [AlpnProtocol::Http2, AlpnProtocol::Http1, AlpnProtocol::Http2];
    let list = AlpnProtocol::serialize(&protocols);
    let mut payload = (list.len() as u16).to_be_bytes().to_vec();
    payload.extend_from_slice(&list);
    let data = record(0x0303, &[], &[], &[extension(0x0010, &payload)]);
    let hello = parse_client_hello(&data).unwrap();
    assert_eq!(hello.alpn_protocols, vec!["h2".to_string(), "http/1.1".to_string(), "h2".to_string()]);
}

#[test]
fn failed_observations_leave_the_last_fingerprint() {
    let mut last = None;
    observe(&mut last, &[0x16, 0x03, 0x01]);
    assert_eq!(last, None);
    let data = record(0x0303, &[], &[0x1301], &[]);
    observe(&mut last, &data);
    assert_eq!(last.as_deref(), Some("t13i010000_0f2cb44170f4_000000000000"));
    observe(&mut last, b"GET / HTTP/1.1\r\n");
    observe(&mut last, &data[..50]);
    assert_eq!(last.as_deref(), Some("t13i010000_0f2cb44170f4_000000000000"));
    observe(&mut last, &record(0x0303, &[], &[], &[]));
    assert_eq!(last.as_deref(), Some("t13i000000_000000000000_000000000000"));
}
