use irongate::encore::base32hex::Base32HexDecode;
use irongate::encore::base32hex::Base32HexEncode;
use irongate::encore::base64::Base64Decode;
use irongate::encore::base64::Base64Encode;
use irongate::encore::base64::Base64Format;
use irongate::encore::codec::DecodeFailure;
use irongate::encore::codec::DecodeFailureKind;
use irongate::encore::errors::OperationError;
use irongate::encore::hexadecimal::HexDecode;
use irongate::encore::hexadecimal::HexEncode;
use irongate::encore::hexadecimal::HexFormat;
use irongate::encore::operation::Operation;

#[test]
fn base32hex_decode() {
    let encoder = Base32HexDecode::new();
    let actual = encoder.execute("D5P6URJ7C5Q6A===".as_bytes()).unwrap();
    let expected = "irongate".as_bytes().to_vec();
    assert_eq!(actual, expected);
}

#[test]
fn base32hex_encode() {
    let encoder = Base32HexEncode::new();
    let actual = encoder.execute("irongate".as_bytes()).unwrap();
    let expected = "D5P6URJ7C5Q6A===".as_bytes().to_vec();
    assert_eq!(actual, expected);
}

#[test]
fn base64_decode() {
    let encoder = Base64Decode::new(Base64Format::Standard, true);
    let actual = encoder.execute("aXJvbmdhdGU=".as_bytes()).unwrap();
    let expected = "irongate".as_bytes().to_vec();
    assert_eq!(actual, expected);
}

#[test]
fn base64_encode() {
    let encoder = Base64Encode::new(Base64Format::Standard, true);
    let actual = encoder.execute("irongate".as_bytes()).unwrap();
    let expected = "aXJvbmdhdGU=".as_bytes().to_vec();
    assert_eq!(actual, expected);
}

#[test]
fn hex_decode_no_prefix_no_delimiter() {
    let encoder = HexDecode::new(None, None);
    let actual = encoder.execute("69726f6e67617465".as_bytes()).unwrap();
    let expected = "irongate".as_bytes().to_vec();
    assert_eq!(actual, expected);
}

#[test]
fn hex_decode_prefix() {
    let encoder = HexDecode::new(Some("\\x".to_string()), None);
    let actual = encoder.execute("\\x69\\x72\\x6f\\x6e\\x67\\x61\\x74\\x65".as_bytes()).unwrap();
    let expected = "irongate".as_bytes().to_vec();
    assert_eq!(actual, expected);
}

#[test]
fn hex_decode_delimiter() {
    let encoder = HexDecode::new(None, Some(",".to_string()));
    let actual = encoder.execute("69,72,6f,6e,67,61,74,65".as_bytes()).unwrap();
    let expected = "irongate".as_bytes().to_vec();
    assert_eq!(actual, expected);
}

#[test]
fn hex_encode_prefix_upper() {
    let encoder = HexEncode::new(HexFormat::Upper, Some("\\x".to_string()), None);
    let actual = encoder.execute("irongate".as_bytes()).unwrap();
    let expected = "\\x69\\x72\\x6F\\x6E\\x67\\x61\\x74\\x65".as_bytes().to_vec();
    assert_eq!(actual, expected);
}

#[test]
fn hex_encode_prefix_lower() {
    let encoder = HexEncode::new(HexFormat::Lower, Some("0x".to_string()), None);
    let actual = encoder.execute("irongate".as_bytes()).unwrap();
    let expected = "0x690x720x6f0x6e0x670x610x740x65".as_bytes().to_vec();
    assert_eq!(actual, expected);
}

#[test]
fn hex_encode_delimiter_lower() {
    let encoder = HexEncode::new(HexFormat::Lower, None, Some("\n".to_string()));
    let actual = encoder.execute("irongate".as_bytes()).unwrap();
    let expected = "69\n72\n6f\n6e\n67\n61\n74\n65".as_bytes().to_vec();
    assert_eq!(actual, expected);
}

#[test]
fn hex_encode_delimiter_upper() {
    let encoder = HexEncode::new(HexFormat::Upper, None, Some("\n".to_string()));
    let actual = encoder.execute("irongate".as_bytes()).unwrap();
    let expected = "69\n72\n6F\n6E\n67\n61\n74\n65".as_bytes().to_vec();
    assert_eq!(actual, expected);
}

#[test]
fn hex_encode_prefix_and_delimiter() {
    let encoder = HexEncode::new(HexFormat::Lower, Some("0x".to_string()), Some(", ".to_string()));
    let actual = encoder.execute(&[0x00, 0xff, 0x1a]).unwrap();
    assert_eq!(actual, "0x00, 0xff, 0x1a".as_bytes().to_vec());
}

#[test]
fn hex_encode_empty_affixes_are_none() {
    let plain = HexEncode::new(HexFormat::Lower, None, None);
    let empty = HexEncode::new(HexFormat::Lower, Some(String::new()), Some(String::new()));
    assert_eq!(plain.execute(b"ab").unwrap(), b"6162".to_vec());
    assert_eq!(empty.execute(b"ab").unwrap(), b"6162".to_vec());
    assert_eq!(plain.execute(b"").unwrap(), Vec::<u8>::new());
}

#[test]
fn hex_decode_accepts_either_case() {
    let decoder = HexDecode::new(None, None);
    assert_eq!(decoder.execute(b"0aFf").unwrap(), vec![0x0a, 0xff]);
    assert_eq!(decoder.execute(b"").unwrap(), Vec::<u8>::new());
}

#[test]
fn hex_decode_rejects_odd_length_and_foreign_characters() {
    let decoder = HexDecode::new(None, None);
    for input in ["abc", "zz", "0x41"] {
        match decoder.execute(input.as_bytes()) {
            Err(OperationError::DecodeError(message)) => assert_eq!(message, "Invalid Hex input"),
            other => panic!("expected a decode error, got {:?}", other),
        }
    }
}

#[test]
fn hex_decode_removes_prefix_before_delimiter() {
    let decoder = HexDecode::new(Some("0x".to_string()), Some(":".to_string()));
    assert_eq!(decoder.execute(b"0x41:0x42:0x43").unwrap(), b"ABC".to_vec());
    // matches are taken from the left and do not overlap
    let decoder = HexDecode::new(Some("aa".to_string()), None);
    assert_eq!(decoder.execute(b"aaa1").unwrap(), vec![0xa1]);
}

#[test]
fn base64_formats_differ_in_alphabet_and_padding() {
    let input: [u8; 3] = [0xfb, 0xff, 0xfe];
    assert_eq!(Base64Encode::new(Base64Format::Standard, true).execute(&input).unwrap(), b"+//+");
    assert_eq!(Base64Encode::new(Base64Format::Url, true).execute(&input).unwrap(), b"-__-");
    assert_eq!(Base64Encode::new(Base64Format::Standard, true).execute(b"ab").unwrap(), b"YWI=");
    assert_eq!(Base64Encode::new(Base64Format::Standard, false).execute(b"ab").unwrap(), b"YWI");
    assert_eq!(Base64Encode::new(Base64Format::Url, true).execute(b"ab").unwrap(), b"YWI=");
    assert_eq!(Base64Encode::new(Base64Format::Url, false).execute(b"ab").unwrap(), b"YWI");
    assert_eq!(Base64Encode::new(Base64Format::Mime, false).execute(b"ab").unwrap(), b"YWI=\r\n");
    assert_eq!(Base64Encode::new(Base64Format::Mime, true).execute(b"ab").unwrap(), b"YWI=\r\n");
}

#[test]
fn base64_decodes_what_it_encodes() {
    let input: Vec<u8> = (0u8..=255).collect();
    for format in [Base64Format::Standard, Base64Format::Url, Base64Format::Mime] {
        for pad in [false, true] {
            let text = Base64Encode::new(format, pad).execute(&input).unwrap();
            assert_ne!(text, input);
            assert_eq!(Base64Decode::new(format, pad).execute(&text).unwrap(), input);
        }
    }
    assert_eq!(Base64Decode::new(Base64Format::Url, false).execute(b"-__-").unwrap(), vec![0xfb, 0xff, 0xfe]);
    assert_eq!(Base64Decode::new(Base64Format::Standard, false).execute(b"YWI").unwrap(), b"ab");
    assert_eq!(Base64Decode::new(Base64Format::Mime, true).execute(b"YW\r\nI=").unwrap(), b"ab");
}

#[test]
fn base64_decode_error_carries_the_decoder_s_words() {
    match Base64Decode::new(Base64Format::Standard, true).execute(b"a!JvbmdhdGU=") {
        Err(OperationError::DecodeError(message)) => assert_eq!(message, "invalid symbol at 1"),
        other => panic!("expected a decode error, got {:?}", other),
    }
    match Base64Decode::new(Base64Format::Standard, true).execute(b"aXJvb") {
        Err(OperationError::DecodeError(message)) => assert_eq!(message, "invalid length at 4"),
        other => panic!("expected a decode error, got {:?}", other),
    }
    match Base32HexDecode::new().execute(b"D5P6URJ7C5Q6A") {
        Err(e) => assert!(e.to_string().starts_with("Decode error: invalid ")),
        other => panic!("expected a decode error, got {:?}", other),
    }
}

#[test]
fn operation_error_messages() {
    assert_eq!(OperationError::DecodeUtf8Error.to_string(), "Utf8 decode error");
    assert_eq!(OperationError::DecodeError("x".to_string()).to_string(), "Decode error: x");
    assert_eq!(OperationError::EncryptionError("x".to_string()).to_string(), "Encryption error: x");
    assert_eq!(OperationError::IoError("x".to_string()).to_string(), "IO error: x");
    assert_eq!(OperationError::NotImplemented("x".to_string()).to_string(), "Not implemented: x");
    assert_eq!(OperationError::Unknown.to_string(), "Unknown error");
}

#[test]
fn decode_failures_tell_kind_and_position() {
    use_failure(DecodeFailureKind::Length, 0, "invalid length at 0");
    use_failure(DecodeFailureKind::Symbol, 17, "invalid symbol at 17");
    use_failure(DecodeFailureKind::Trailing, 3, "non-zero trailing bits at 3");
    use_failure(DecodeFailureKind::Padding, 1234567890, "invalid padding length at 1234567890");
    match Base64Decode::new(Base64Format::Standard, true).execute(b"aR==") {
        Err(OperationError::DecodeError(message)) => assert_eq!(message, "non-zero trailing bits at 1"),
        other => panic!("expected a decode error, got {:?}", other),
    }
    match Base64Decode::new(Base64Format::Standard, true).execute(b"aQ=a") {
        Err(OperationError::DecodeError(message)) => assert!(message.starts_with("invalid ")),
        other => panic!("expected a decode error, got {:?}", other),
    }
}

fn use_failure(kind: DecodeFailureKind, position: usize, expected: &str) {
    let failure = DecodeFailure { position, kind };
    assert_eq!(failure.to_string(), expected);
    match OperationError::from_decode_error(failure) {
        OperationError::DecodeError(message) => assert_eq!(message, expected),
        other => panic!("expected a decode error, got {:?}", other),
    }
    // the decoder's own words are the same
    let native = data_encoding::DecodeError {
        position,
        kind: match kind {
            DecodeFailureKind::Length => data_encoding::DecodeKind::Length,
            DecodeFailureKind::Symbol => data_encoding::DecodeKind::Symbol,
            DecodeFailureKind::Trailing => data_encoding::DecodeKind::Trailing,
            DecodeFailureKind::Padding => data_encoding::DecodeKind::Padding,
        },
    };
    assert_eq!(native.to_string(), expected);
}
