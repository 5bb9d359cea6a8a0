//! Reading the fields of a ClientHello out of a captured TLS record.
//!
//! The record is walked front to back at fixed offsets: a 5-byte record header and a 4-byte
//! handshake header, the 2-byte protocol version, the 32-byte random, the session id with its
//! 1-byte length, the cipher suite list with its 2-byte length, the compression methods with
//! their 1-byte length, and the extension block with its 2-byte length. Nothing is validated
//! beyond what the walk needs, but no byte outside the buffer is ever read: a field that does
//! not fit is an error.

use crate::fingerprint::client_hello::ClientHello;
use crate::fingerprint::client_hello::ClientHelloView;
use crate::fingerprint::client_hello::Extension;
use crate::fingerprint::client_hello::ExtensionView;
use crate::fingerprint::ja4::EXT_ALPN;
use crate::fingerprint::ja4::EXT_SERVER_NAME;
use vstd::prelude::*;
use vstd::slice::slice_subrange;
use vstd::slice::slice_to_vec;
use vstd::utf8::decode_utf8;
use vstd::utf8::valid_utf8;

verus! {

/// Why a record could not be read as a ClientHello.
#[derive(Debug, Clone, Copy, PartialEq, Eq, Structural)]
pub enum ParseError {
    /// The buffer ends before a field or a length that has to be read.
    BufferTooShort,
    /// An extension, or a protocol name inside the ALPN extension, declares more bytes than
    /// the buffer holds.
    MalformedExtensionLength,
}

/// The offset of the protocol version: behind the record header and the handshake header.
pub const VERSION_AT: usize = 9;

/// The offset of the session id's length byte: behind the version and the 32-byte random.
pub const SESSION_ID_AT: usize = 43;

/// The text that `String::from_utf8_lossy` makes of a byte string.
pub uninterp spec fn utf8_lossy(bytes: Seq<u8>) -> Seq<char>;

/// Calls `String::from_utf8_lossy`. Trusted: the text is a function of the bytes alone, and
/// bytes that are valid UTF-8 are decoded as they stand.
#[verifier::external_body]
fn decode_lossy(bytes: &[u8]) -> (text: String)
    ensures
        text@ == utf8_lossy(bytes@),
        valid_utf8(bytes@) ==> text@ == decode_utf8(bytes@),
{
    String::from_utf8_lossy(bytes).into_owned()
}

/// The text that a protocol name's bytes are read as: bytes that are valid UTF-8 are decoded
/// as they stand, and any others as `String::from_utf8_lossy` makes text of them.
pub open spec fn lossy_text(bytes: Seq<u8>) -> Seq<char> {
    if valid_utf8(bytes) {
        decode_utf8(bytes)
    } else {
        utf8_lossy(bytes)
    }
}

/// The big-endian 16-bit number at an offset.
pub open spec fn be16(data: Seq<u8>, at: int) -> u16 {
    (data[at] as int * 256 + data[at + 1] as int) as u16
}

/// The offset behind the session id.
pub open spec fn cipher_list_len_at(data: Seq<u8>) -> int {
    SESSION_ID_AT as int + 1 + data[SESSION_ID_AT as int] as int
}

/// The offset of the first cipher suite code.
pub open spec fn cipher_list_at(data: Seq<u8>) -> int {
    cipher_list_len_at(data) + 2
}

/// The declared length of the cipher suite list in bytes.
pub open spec fn cipher_list_len(data: Seq<u8>) -> int {
    be16(data, cipher_list_len_at(data)) as int
}

/// The number of cipher suite codes read: one for every two bytes of the list, and one more
/// for an odd byte left over, which is read together with the byte that follows the list.
pub open spec fn cipher_count_on_wire(data: Seq<u8>) -> int {
    (cipher_list_len(data) + 1) / 2
}

/// The cipher suite codes in the order they stand in the list.
pub open spec fn cipher_suites_on_wire(data: Seq<u8>) -> Seq<u16> {
    Seq::new(
        cipher_count_on_wire(data) as nat,
        |i: int| be16(data, cipher_list_at(data) + 2 * i),
    )
}

/// The offset of the compression methods' length byte.
pub open spec fn compression_at(data: Seq<u8>) -> int {
    cipher_list_at(data) + cipher_list_len(data)
}

/// The offset of the extension block's length.
pub open spec fn extensions_len_at(data: Seq<u8>) -> int {
    compression_at(data) + 1 + data[compression_at(data)] as int
}

/// The offset of the first extension.
pub open spec fn extensions_at(data: Seq<u8>) -> int {
    extensions_len_at(data) + 2
}

/// The offset at which the extension block ends by its declared length.
pub open spec fn extensions_end(data: Seq<u8>) -> int {
    extensions_at(data) + be16(data, extensions_len_at(data)) as int
}

/// Whether every field before the extension block lies inside the buffer.
pub open spec fn header_fits(data: Seq<u8>) -> bool {
    &&& data.len() >= SESSION_ID_AT + 1
    &&& data.len() >= cipher_list_len_at(data) + 2
    &&& data.len() >= cipher_list_at(data) + 2 * cipher_count_on_wire(data)
    &&& data.len() >= compression_at(data) + 1
    &&& data.len() >= extensions_len_at(data) + 2
}

/// What a walk over the extension block has gathered.
pub struct ExtensionScan {
    pub extensions: Seq<ExtensionView>,
    pub alpn_protocols: Seq<Seq<char>>,
    pub has_sni: bool,
}

impl ExtensionScan {
    /// The state before the first extension.
    pub open spec fn start() -> ExtensionScan {
        ExtensionScan { extensions: Seq::empty(), alpn_protocols: Seq::empty(), has_sni: false }
    }
}

/// Walks the entries of an ALPN protocol list from `pos` until `end` is reached or passed:
/// each entry is a length byte and that many bytes of name. The names are appended to `names`.
pub open spec fn scan_alpn_names(data: Seq<u8>, pos: int, end: int, names: Seq<Seq<char>>) -> Result<
    Seq<Seq<char>>,
    ParseError,
>
    decreases (if pos < end { end - pos } else { 0 }),
{
    if pos >= end {
        Ok(names)
    } else if pos < 0 || data.len() < pos + 1 {
        Err(ParseError::BufferTooShort)
    } else if data.len() < pos + 1 + data[pos] as int {
        Err(ParseError::MalformedExtensionLength)
    } else {
        let next = pos + 1 + data[pos] as int;
        scan_alpn_names(data, next, end, names.push(lossy_text(data.subrange(pos + 1, next))))
    }
}

/// Reads the payload of an ALPN extension that starts at `body`: a 2-byte list length and the
/// list's entries.
pub open spec fn scan_alpn(data: Seq<u8>, body: int, names: Seq<Seq<char>>) -> Result<
    Seq<Seq<char>>,
    ParseError,
> {
    if data.len() < body + 2 {
        Err(ParseError::BufferTooShort)
    } else {
        scan_alpn_names(data, body + 2, body + 2 + be16(data, body) as int, names)
    }
}

/// Walks the extensions from `pos` until `end` is reached or passed: each is a 2-byte type, a
/// 2-byte length and that many bytes of payload. Type 0 marks the server name as present; the
/// payload of type 16 is read as an ALPN protocol list.
pub open spec fn scan_extensions(data: Seq<u8>, pos: int, end: int, so_far: ExtensionScan) -> Result<
    ExtensionScan,
    ParseError,
>
    decreases (if pos < end { end - pos } else { 0 }),
{
    if pos >= end {
        Ok(so_far)
    } else if pos < 0 || data.len() < pos + 4 {
        Err(ParseError::BufferTooShort)
    } else {
        let ext_type = be16(data, pos);
        let body = pos + 4;
        let next = body + be16(data, pos + 2) as int;
        let names = if ext_type == EXT_ALPN {
            scan_alpn(data, body, so_far.alpn_protocols)
        } else {
            Ok(so_far.alpn_protocols)
        };
        match names {
            Err(e) => Err(e),
            Ok(alpn_protocols) => if data.len() < next {
                Err(ParseError::MalformedExtensionLength)
            } else {
                scan_extensions(
                    data,
                    next,
                    end,
                    ExtensionScan {
                        extensions: so_far.extensions.push(
                            ExtensionView { ext_type, data: data.subrange(body, next) },
                        ),
                        alpn_protocols,
                        has_sni: so_far.has_sni || ext_type == EXT_SERVER_NAME,
                    },
                )
            },
        }
    }
}

/// What reading a record as a ClientHello gives.
pub open spec fn parsed(data: Seq<u8>) -> Result<ClientHelloView, ParseError> {
    if !header_fits(data) {
        Err(ParseError::BufferTooShort)
    } else {
        match scan_extensions(data, extensions_at(data), extensions_end(data), ExtensionScan::start()) {
            Err(e) => Err(e),
            Ok(scan) => Ok(
                ClientHelloView {
                    tls_version: be16(data, VERSION_AT as int),
                    cipher_suites: cipher_suites_on_wire(data),
                    extensions: scan.extensions,
                    alpn_protocols: scan.alpn_protocols,
                    has_sni: scan.has_sni,
                },
            ),
        }
    }
}

/// Whether a record starts as a TLS handshake record does: content type 22, major version 3.
pub open spec fn starts_as_handshake(data: Seq<u8>) -> bool {
    data.len() >= 2 && data[0] == 0x16 && data[1] == 0x03
}

/// Tells whether `n` more bytes lie in the buffer from `pos` on.
fn fits(data: &[u8], pos: usize, n: usize) -> (b: bool)
    requires
        pos <= data@.len(),
    ensures
        b == (pos + n <= data@.len()),
        data@.len() <= usize::MAX,
{
    data.len() - pos >= n
}

/// Reads the big-endian 16-bit number at `at`.
fn read_be16(data: &[u8], at: usize) -> (v: u16)
    requires
        at + 2 <= data@.len(),
    ensures
        v == be16(data@, at as int),
{
    let hi: u16 = data[at] as u16;
    let lo: u16 = data[at + 1] as u16;
    hi * 256 + lo
}

/// The views of the names gathered so far.
pub open spec fn names_view(names: Seq<String>) -> Seq<Seq<char>> {
    Seq::new(names.len(), |i: int| names[i]@)
}

/// The views of the extensions gathered so far.
pub open spec fn extensions_view(extensions: Seq<Extension>) -> Seq<ExtensionView> {
    Seq::new(extensions.len(), |i: int| extensions[i]@)
}

/// Reads the payload of an ALPN extension and appends its protocol names.
fn read_alpn(data: &[u8], body: usize, names: &mut Vec<String>) -> (r: Result<(), ParseError>)
    requires
        body <= data@.len(),
    ensures
        match r {
            Ok(()) => scan_alpn(data@, body as int, names_view(old(names)@)) == Ok::<
                Seq<Seq<char>>,
                ParseError,
            >(names_view(final(names)@)),
            Err(e) => scan_alpn(data@, body as int, names_view(old(names)@)) == Err::<
                Seq<Seq<char>>,
                ParseError,
            >(e),
        },
{
    if !fits(data, body, 2) {
        return Err(ParseError::BufferTooShort);
    }
    let list_len: usize = read_be16(data, body) as usize;
    let start: usize = body + 2;
    let mut pos: usize = start;
    let ghost end: int = start + list_len;
    let ghost goal = scan_alpn(data@, body as int, names_view(old(names)@));
    while pos - start < list_len
        invariant
            start <= pos <= data@.len() <= usize::MAX,
            end == start + list_len,
            goal == scan_alpn(data@, body as int, names_view(old(names)@)),
            goal == scan_alpn_names(data@, pos as int, end, names_view(names@)),
        decreases (if pos < end { end - pos } else { 0 }),
    {
        if !fits(data, pos, 1) {
            return Err(ParseError::BufferTooShort);
        }
        let name_len: usize = data[pos] as usize;
        if !fits(data, pos + 1, name_len) {
            return Err(ParseError::MalformedExtensionLength);
        }
        let name = decode_lossy(slice_subrange(data, pos + 1, pos + 1 + name_len));
        proof {
            assert(names_view(names@.push(name)) =~= names_view(names@).push(name@));
        }
        names.push(name);
        pos = pos + 1 + name_len;
    }
    Ok(())
}

/// Reads a captured record as a ClientHello.
///
/// The record is taken as delivered, in one piece; its leading bytes are not examined (see
/// [`starts_as_handshake`]). Reading fails exactly where a field does not fit in the buffer.
pub fn parse_client_hello(data: &[u8]) -> (r: Result<ClientHello, ParseError>)
    ensures
        match r {
            Ok(hello) => parsed(data@) == Ok::<ClientHelloView, ParseError>(hello@),
            Err(e) => parsed(data@) == Err::<ClientHelloView, ParseError>(e),
        },
{
    if data.len() < SESSION_ID_AT + 1 {
        return Err(ParseError::BufferTooShort);
    }
    let tls_version = read_be16(data, VERSION_AT);
    let session_id_len: usize = data[SESSION_ID_AT] as usize;
    let mut pos: usize = SESSION_ID_AT + 1 + session_id_len;
    if data.len() < pos || !fits(data, pos, 2) {
        return Err(ParseError::BufferTooShort);
    }
    let list_len: usize = read_be16(data, pos) as usize;
    pos = pos + 2;
    let count: usize = (list_len + 1) / 2;
    if !fits(data, pos, 2 * count) {
        return Err(ParseError::BufferTooShort);
    }
    let mut cipher_suites: Vec<u16> = Vec::new();
    let mut i: usize = 0;
    while i < count
        invariant
            i <= count,
            pos + 2 * count <= data@.len() <= usize::MAX,
            pos == cipher_list_at(data@),
            cipher_suites@.len() == i,
            forall|k: int| 0 <= k < i ==> cipher_suites@[k] == be16(data@, pos + 2 * k),
        decreases count - i,
    {
        cipher_suites.push(read_be16(data, pos + 2 * i));
        i += 1;
    }
    assert(cipher_suites@ =~= cipher_suites_on_wire(data@));
    pos = pos + list_len;
    if !fits(data, pos, 1) {
        return Err(ParseError::BufferTooShort);
    }
    let compression_len: usize = data[pos] as usize;
    if !fits(data, pos + 1, compression_len) {
        return Err(ParseError::BufferTooShort);
    }
    pos = pos + 1 + compression_len;
    if !fits(data, pos, 2) {
        return Err(ParseError::BufferTooShort);
    }
    let block_len: usize = read_be16(data, pos) as usize;
    pos = pos + 2;
    let start: usize = pos;
    let ghost end: int = start + block_len;
    assert(header_fits(data@));
    assert(start == extensions_at(data@));
    assert(end == extensions_end(data@));

    let mut extensions: Vec<Extension> = Vec::new();
    let mut alpn_protocols: Vec<String> = Vec::new();
    let mut has_sni = false;
    let ghost goal = scan_extensions(data@, start as int, end, ExtensionScan::start());
    assert(extensions_view(extensions@) =~= Seq::empty());
    assert(names_view(alpn_protocols@) =~= Seq::empty());
    while pos - start < block_len
        invariant
            start <= pos <= data@.len() <= usize::MAX,
            end == start + block_len,
            header_fits(data@),
            start == extensions_at(data@),
            end == extensions_end(data@),
            tls_version == be16(data@, VERSION_AT as int),
            cipher_suites@ == cipher_suites_on_wire(data@),
            goal == scan_extensions(data@, start as int, end, ExtensionScan::start()),
            goal == scan_extensions(
                data@,
                pos as int,
                end,
                ExtensionScan {
                    extensions: extensions_view(extensions@),
                    alpn_protocols: names_view(alpn_protocols@),
                    has_sni,
                },
            ),
        decreases (if pos < end { end - pos } else { 0 }),
    {
        if !fits(data, pos, 4) {
            return Err(ParseError::BufferTooShort);
        }
        let ext_type = read_be16(data, pos);
        let ext_len: usize = read_be16(data, pos + 2) as usize;
        let body: usize = pos + 4;
        if ext_type == EXT_ALPN {
            match read_alpn(data, body, &mut alpn_protocols) {
                Ok(()) => {},
                Err(e) => {
                    return Err(e);
                },
            }
        }
        if !fits(data, body, ext_len) {
            return Err(ParseError::MalformedExtensionLength);
        }
        if ext_type == EXT_SERVER_NAME {
            has_sni = true;
        }
        let extension = Extension {
            ext_type,
            data: slice_to_vec(slice_subrange(data, body, body + ext_len)),
        };
        proof {
            assert(extensions_view(extensions@.push(extension)) =~= extensions_view(
                extensions@,
            ).push(extension@));
        }
        extensions.push(extension);
        pos = body + ext_len;
    }
    let hello = ClientHello { tls_version, cipher_suites, extensions, alpn_protocols, has_sni };
    proof {
        assert(hello@.extensions =~= extensions_view(hello.extensions@));
        assert(hello@.alpn_protocols =~= names_view(hello.alpn_protocols@));
    }
    Ok(hello)
}

} // verus!
