//! What holds of every reading of a record.

use crate::fingerprint::client_hello::ExtensionView;
use crate::fingerprint::ja4::EXT_ALPN;
use crate::fingerprint::ja4::EXT_SERVER_NAME;
use crate::fingerprint::parser::be16;
use crate::fingerprint::parser::cipher_list_len_at;
use crate::fingerprint::parser::cipher_suites_on_wire;
use crate::fingerprint::parser::compression_at;
use crate::fingerprint::parser::extensions_at;
use crate::fingerprint::parser::extensions_end;
use crate::fingerprint::parser::extensions_len_at;
use crate::fingerprint::parser::header_fits;
use crate::fingerprint::parser::parsed;
use crate::fingerprint::parser::scan_alpn;
use crate::fingerprint::parser::scan_alpn_names;
use crate::fingerprint::parser::scan_extensions;
use crate::fingerprint::parser::starts_as_handshake;
use crate::fingerprint::parser::lossy_text;
use crate::fingerprint::parser::ExtensionScan;
use crate::fingerprint::record::fingerprint_of;
use crate::fingerprint::parser::ParseError;
use crate::text::all_ascii;
use crate::tls::alpn::AlpnProtocol;
use crate::text::ascii_chars;
use vstd::prelude::*;
use vstd::utf8::encode_utf8;
use vstd::utf8::encode_utf8_decode_utf8;
use vstd::utf8::encode_utf8_valid_utf8;
use vstd::utf8::is_ascii_chars;
use vstd::utf8::is_ascii_chars_encode_utf8;

verus! {

/// What lies inside a buffer reads the same when more bytes follow the buffer.
proof fn lemma_reads_inside(data: Seq<u8>, extra: Seq<u8>)
    ensures
        forall|i: int| 0 <= i < data.len() ==> (#[trigger] (data + extra)[i]) == data[i],
        forall|at: int|
            0 <= at && at + 2 <= data.len() ==> #[trigger] be16(data + extra, at) == be16(data, at),
        forall|from: int, to: int|
            0 <= from <= to <= data.len() ==> #[trigger] (data + extra).subrange(from, to)
                == data.subrange(from, to),
{
    assert forall|from: int, to: int| 0 <= from <= to <= data.len() implies #[trigger] (data
        + extra).subrange(from, to) == data.subrange(from, to) by {
        assert((data + extra).subrange(from, to) =~= data.subrange(from, to));
    }
}

/// A list of protocol names that was read is read the same when more bytes follow the
/// buffer.
proof fn lemma_alpn_names_ignore_what_follows(
    data: Seq<u8>,
    extra: Seq<u8>,
    pos: int,
    end: int,
    names: Seq<Seq<char>>,
)
    requires
        scan_alpn_names(data, pos, end, names) is Ok,
    ensures
        scan_alpn_names(data + extra, pos, end, names) == scan_alpn_names(data, pos, end, names),
    decreases (if pos < end {
        end - pos
    } else {
        0
    }),
{
    lemma_reads_inside(data, extra);
    if pos < end {
        let next = pos + 1 + data[pos] as int;
        assert((data + extra)[pos] == data[pos]);
        assert((data + extra).subrange(pos + 1, next) == data.subrange(pos + 1, next));
        lemma_alpn_names_ignore_what_follows(
            data,
            extra,
            next,
            end,
            names.push(lossy_text(data.subrange(pos + 1, next))),
        );
    }
}

/// Extensions that were read are read the same when more bytes follow the buffer.
proof fn lemma_extensions_ignore_what_follows(
    data: Seq<u8>,
    extra: Seq<u8>,
    pos: int,
    end: int,
    so_far: ExtensionScan,
)
    requires
        scan_extensions(data, pos, end, so_far) is Ok,
    ensures
        scan_extensions(data + extra, pos, end, so_far) == scan_extensions(data, pos, end, so_far),
    decreases (if pos < end {
        end - pos
    } else {
        0
    }),
{
    lemma_reads_inside(data, extra);
    if pos < end {
        let ext_type = be16(data, pos);
        let body = pos + 4;
        let next = body + be16(data, pos + 2) as int;
        assert(be16(data + extra, pos) == ext_type);
        assert(be16(data + extra, pos + 2) == be16(data, pos + 2));
        if ext_type == EXT_ALPN {
            assert(scan_alpn(data, body, so_far.alpn_protocols) is Ok);
            assert(be16(data + extra, body) == be16(data, body));
            lemma_alpn_names_ignore_what_follows(
                data,
                extra,
                body + 2,
                body + 2 + be16(data, body) as int,
                so_far.alpn_protocols,
            );
        }
        let names = if ext_type == EXT_ALPN {
            scan_alpn(data, body, so_far.alpn_protocols)
        } else {
            Ok(so_far.alpn_protocols)
        };
        assert((data + extra).subrange(body, next) == data.subrange(body, next));
        lemma_extensions_ignore_what_follows(
            data,
            extra,
            next,
            end,
            ExtensionScan {
                extensions: so_far.extensions.push(
                    ExtensionView { ext_type, data: data.subrange(body, next) },
                ),
                alpn_protocols: names->Ok_0,
                has_sni: so_far.has_sni || ext_type == EXT_SERVER_NAME,
            },
        );
    }
}

/// A protocol name of ASCII bytes is read as the characters that the bytes stand for.
pub proof fn ascii_names_are_read_as_they_stand(bytes: Seq<u8>)
    requires
        all_ascii(bytes),
    ensures
        lossy_text(bytes) == ascii_chars(bytes),
{
    let chars = ascii_chars(bytes);
    assert(is_ascii_chars(chars)) by {
        assert forall|i: int| 0 <= i < chars.len() implies '\0' <= #[trigger] chars[i]
            <= '\u{7f}' by {
            assert(bytes[i] < 128);
        }
    }
    is_ascii_chars_encode_utf8(chars);
    assert(encode_utf8(chars) =~= bytes) by {
        assert forall|i: int| 0 <= i < bytes.len() implies encode_utf8(chars)[i] == bytes[i] by {
            assert(chars[i] as u8 == encode_utf8(chars)[i]);
            assert(bytes[i] < 128);
        }
    }
    encode_utf8_valid_utf8(chars);
    encode_utf8_decode_utf8(chars);
}

/// The names of protocols, in order, as text.
pub open spec fn identifiers(protocols: Seq<AlpnProtocol>) -> Seq<Seq<char>> {
    Seq::new(protocols.len(), |i: int| ascii_chars(protocols[i].identifier()))
}

/// An ALPN list begins with the wire form of its first protocol.
proof fn lemma_serialized_front(protocols: Seq<AlpnProtocol>)
    requires
        protocols.len() > 0,
    ensures
        AlpnProtocol::serialized(protocols) == protocols[0].wire_form() + AlpnProtocol::serialized(
            protocols.drop_first(),
        ),
    decreases protocols.len(),
{
    let front = protocols.drop_last();
    if protocols.len() == 1 {
        assert(AlpnProtocol::serialized(front) =~= Seq::<u8>::empty());
        assert(AlpnProtocol::serialized(protocols.drop_first()) =~= Seq::<u8>::empty());
        assert(protocols.last() == protocols[0]);
        assert(AlpnProtocol::serialized(protocols) =~= protocols[0].wire_form());
    } else {
        lemma_serialized_front(front);
        let rest = protocols.drop_first();
        assert(front.drop_first() == rest.drop_last());
        assert(front[0] == protocols[0]);
        assert(rest.last() == protocols.last());
        assert(AlpnProtocol::serialized(rest) == AlpnProtocol::serialized(rest.drop_last())
            + rest.last().wire_form());
        assert(AlpnProtocol::serialized(protocols) =~= protocols[0].wire_form()
            + AlpnProtocol::serialized(rest));
    }
}

/// Reading inverts writing: where the ALPN list that was written for protocols stands in a
/// buffer, the names read from it are the names of those protocols, in their order.
pub proof fn reading_inverts_serializing(
    data: Seq<u8>,
    pos: int,
    protocols: Seq<AlpnProtocol>,
    names: Seq<Seq<char>>,
)
    requires
        0 <= pos,
        pos + AlpnProtocol::serialized(protocols).len() <= data.len(),
        data.subrange(pos, pos + AlpnProtocol::serialized(protocols).len())
            == AlpnProtocol::serialized(protocols),
    ensures
        scan_alpn_names(data, pos, pos + AlpnProtocol::serialized(protocols).len(), names) == Ok::<
            Seq<Seq<char>>,
            ParseError,
        >(names + identifiers(protocols)),
    decreases protocols.len(),
{
    let list = AlpnProtocol::serialized(protocols);
    let end = pos + list.len();
    if protocols.len() == 0 {
        assert(list =~= Seq::<u8>::empty());
        assert(names + identifiers(protocols) =~= names);
    } else {
        lemma_serialized_front(protocols);
        let first = protocols[0];
        let rest = protocols.drop_first();
        let wire = first.wire_form();
        let name = first.identifier();
        let tail = AlpnProtocol::serialized(rest);
        assert(wire.len() == 1 + name.len() && 0 < name.len() < 256);
        assert(list.len() == wire.len() + tail.len());
        let next = pos + 1 + name.len();
        assert(data[pos] == list[0] && list[0] == wire[0]) by {
            assert(data.subrange(pos, end)[0] == data[pos]);
        }
        assert(data[pos] as int == name.len());
        assert(data.subrange(pos + 1, next) =~= name) by {
            assert forall|i: int| 0 <= i < name.len() implies data.subrange(pos + 1, next)[i]
                == name[i] by {
                assert(data.subrange(pos, end)[i + 1] == data[pos + 1 + i]);
                assert(list[i + 1] == wire[i + 1]);
            }
        }
        assert(data.subrange(next, next + tail.len()) =~= tail) by {
            assert forall|i: int| 0 <= i < tail.len() implies data.subrange(
                next,
                next + tail.len(),
            )[i] == tail[i] by {
                assert(data.subrange(pos, end)[wire.len() + i] == data[next + i]);
                assert(list[wire.len() + i] == tail[i]);
            }
        }
        assert(all_ascii(name));
        ascii_names_are_read_as_they_stand(name);
        reading_inverts_serializing(data, next, rest, names.push(ascii_chars(name)));
        assert(names.push(ascii_chars(name)) + identifiers(rest) =~= names + identifiers(
            protocols,
        )) by {
            assert forall|i: int| 0 <= i < rest.len() implies identifiers(rest)[i] == identifiers(
                protocols,
            )[i + 1] by {}
        }
    }
}

/// A record that can be read is read the same whatever bytes follow it: what lies behind the
/// ClientHello, such as the unused rest of a receive buffer, changes nothing.
pub proof fn reading_ignores_what_follows(data: Seq<u8>, extra: Seq<u8>)
    requires
        parsed(data) is Ok,
    ensures
        parsed(data + extra) == parsed(data),
{
    lemma_reads_inside(data, extra);
    let more = data + extra;
    assert(header_fits(data));
    assert(more[43] == data[43]);
    assert(header_fits(more) && extensions_at(more) == extensions_at(data) && extensions_end(more)
        == extensions_end(data) && cipher_suites_on_wire(more) =~= cipher_suites_on_wire(data)
        && be16(more, 9) == be16(data, 9)) by {
        let a = cipher_list_len_at(data);
        assert(be16(more, a) == be16(data, a));
        let c = compression_at(data);
        assert(more[c] == data[c]);
        let e = extensions_len_at(data);
        assert(be16(more, e) == be16(data, e));
    }
    lemma_extensions_ignore_what_follows(
        data,
        extra,
        extensions_at(data),
        extensions_end(data),
        ExtensionScan::start(),
    );
}

/// A record that has a fingerprint has the same fingerprint whatever bytes follow it.
pub proof fn fingerprint_ignores_what_follows(data: Seq<u8>, extra: Seq<u8>)
    requires
        fingerprint_of(data) is Ok,
    ensures
        fingerprint_of(data + extra) == fingerprint_of(data),
{
    reading_ignores_what_follows(data, extra);
    assert(starts_as_handshake(data + extra)) by {
        assert((data + extra)[0] == data[0]);
        assert((data + extra)[1] == data[1]);
    }
}

} // verus!
