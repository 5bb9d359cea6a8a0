//! The JA4-style fingerprint of a ClientHello.
//!
//! The fingerprint is the text
//! `t`, the version tag, `d` or `i`, the count of cipher suites, the count of extensions, the
//! ALPN code, `_`, the cipher digest, `_`, the extension digest.
//! GREASE values are decoys: they never count as cipher suites and never enter a digest. The
//! count of extensions is taken over all extensions as sent, while the extension digest leaves
//! out GREASE types, the server name extension and the ALPN extension.

use crate::fingerprint::client_hello::ClientHello;
use crate::fingerprint::client_hello::ClientHelloView;
use crate::fingerprint::digest::sha256;
use crate::fingerprint::digest::sha256_digest;
use crate::fingerprint::sorting::sort_codes;
use crate::fingerprint::sorting::sorted_codes;
use crate::text::all_ascii;
use crate::text::ascii_chars;
use crate::text::decimal_text_2;
use crate::text::hex_encode;
use crate::text::hex_pair;
use crate::text::hex_text;
use crate::text::lemma_decimal_text_shape;
use crate::text::lemma_hex_digit_ascii;
use crate::text::lemma_hex_text_shape;
use crate::text::lemma_hex_text_take;
use crate::text::push_ascii;
use crate::text::push_decimal_2;
use crate::text::push_hex_pair;
use vstd::prelude::*;
use vstd::slice::slice_subrange;
use vstd::string::StrSliceExecFns;
use vstd::utf8::encode_utf8;

verus! {

/// The extension type of the server name extension.
pub const EXT_SERVER_NAME: u16 = 0;

/// The extension type of the ALPN extension.
pub const EXT_ALPN: u16 = 16;

/// The protocol version value that is tagged `13`; every other value is tagged `12`.
pub const VERSION_TAGGED_13: u16 = 0x0303;

/// Whether a 16-bit code is a GREASE value: both of its bytes end in the nibble `A`.
pub open spec fn is_grease(v: u16) -> bool {
    (v & 0x0F0F) == 0x0A0A
}

/// The cipher suite codes that count: all but GREASE values.
pub open spec fn counted_cipher() -> spec_fn(u16) -> bool {
    |v: u16| !is_grease(v)
}

/// The extension types that enter the extension digest: all but GREASE values, the server
/// name extension and the ALPN extension.
pub open spec fn digested_extension() -> spec_fn(u16) -> bool {
    |t: u16| t != EXT_SERVER_NAME && t != EXT_ALPN && !is_grease(t)
}

/// A code as four lowercase hexadecimal digits.
pub open spec fn hex4(v: u16) -> Seq<u8> {
    hex_pair((v / 256) as u8, false) + hex_pair((v % 256) as u8, false)
}

/// Codes as four hexadecimal digits each, separated by commas.
pub open spec fn code_list(codes: Seq<u16>) -> Seq<u8>
    decreases codes.len(),
{
    if codes.len() == 0 {
        Seq::empty()
    } else if codes.len() == 1 {
        hex4(codes[0])
    } else {
        code_list(codes.drop_last()) + seq![44u8] + hex4(codes.last())
    }
}

/// The digest that stands for an empty list: twelve zeros.
pub open spec fn empty_digest() -> Seq<u8> {
    Seq::new(12, |i: int| 48u8)
}

/// The digest of a list of codes: the first twelve hexadecimal digits of the SHA-256 digest
/// of the codes in ascending order, written as [`code_list`]; twelve zeros for no codes.
///
/// Texts of four hexadecimal digits compare as the codes they stand for, so that the
/// ascending order of the codes is the lexicographic order of their texts.
pub open spec fn list_digest(codes: Seq<u16>) -> Seq<u8> {
    if codes.len() == 0 {
        empty_digest()
    } else {
        hex_text(sha256(code_list(sorted_codes(codes))), false).take(12)
    }
}

/// The digest over the cipher suites offered.
pub open spec fn cipher_digest(cipher_suites: Seq<u16>) -> Seq<u8> {
    list_digest(cipher_suites.filter(counted_cipher()))
}

/// The digest over the extension types sent.
pub open spec fn extension_digest(extension_types: Seq<u16>) -> Seq<u8> {
    list_digest(extension_types.filter(digested_extension()))
}

/// The number of cipher suites that the fingerprint reports.
pub open spec fn cipher_count(cipher_suites: Seq<u16>) -> nat {
    cipher_suites.filter(counted_cipher()).len()
}

/// Whether a character is alphanumeric in the sense of `char::is_alphanumeric`.
pub uninterp spec fn is_alphanumeric(c: char) -> bool;

/// Whether a character is an ASCII letter or an ASCII digit.
pub open spec fn ascii_alphanumeric(c: char) -> bool {
    ||| 48 <= c as u32 <= 57
    ||| 65 <= c as u32 <= 90
    ||| 97 <= c as u32 <= 122
}

/// `char::is_alphanumeric` tells whether the character is alphabetic or numeric by its
/// Unicode properties. Trusted: the answer depends on the character alone, and among the
/// ASCII characters the letters and the digits are the alphanumeric ones.
pub assume_specification[ char::is_alphanumeric ](c: char) -> (b: bool)
    ensures
        b == is_alphanumeric(c),
        (c as u32) < 128 ==> b == ascii_alphanumeric(c),
;

/// Whether a character is alphanumeric: a letter or a digit, among the ASCII characters as
/// among all others.
pub open spec fn alphanumeric(c: char) -> bool {
    if (c as u32) < 128 {
        ascii_alphanumeric(c)
    } else {
        is_alphanumeric(c)
    }
}

/// The alphanumeric characters of a protocol name, in order.
pub open spec fn alphanumerics(name: Seq<char>) -> Seq<char> {
    name.filter(|c: char| alphanumeric(c))
}

/// The two-character ALPN code.
///
/// With no protocol, and with a first protocol whose name is empty, it is `00`. Otherwise it
/// is taken from the first protocol: the first and the last of its alphanumeric characters
/// (the same character twice where there is one), or, where it has none, the two hexadecimal
/// digits of the first byte of the name.
pub open spec fn alpn_code(protocols: Seq<Seq<char>>) -> Seq<char> {
    if protocols.len() == 0 || protocols[0].len() == 0 {
        ascii_chars(seq![48u8, 48u8])
    } else {
        let kept = alphanumerics(protocols[0]);
        if kept.len() == 0 {
            ascii_chars(hex_pair(encode_utf8(protocols[0])[0], false))
        } else {
            seq![kept.first(), kept.last()]
        }
    }
}

/// The two digits that tag the protocol version.
pub open spec fn version_tag(tls_version: u16) -> Seq<u8> {
    if tls_version == VERSION_TAGGED_13 {
        seq![49u8, 51u8]
    } else {
        seq![49u8, 50u8]
    }
}

/// The letter that tells whether a server name was sent: `d` if so, `i` if not.
pub open spec fn sni_tag(has_sni: bool) -> u8 {
    if has_sni {
        100u8
    } else {
        105u8
    }
}

/// The part of the fingerprint before the ALPN code, as ASCII codes.
pub open spec fn ja4_head(hello: ClientHelloView) -> Seq<u8> {
    seq![116u8] + version_tag(hello.tls_version) + seq![sni_tag(hello.has_sni)] + decimal_text_2(
        cipher_count(hello.cipher_suites),
    ) + decimal_text_2(hello.extensions.len())
}

/// The part of the fingerprint after the ALPN code, as ASCII codes.
pub open spec fn ja4_tail(hello: ClientHelloView) -> Seq<u8> {
    seq![95u8] + cipher_digest(hello.cipher_suites) + seq![95u8] + extension_digest(
        hello.extension_types(),
    )
}

/// The fingerprint of a ClientHello.
pub open spec fn ja4(hello: ClientHelloView) -> Seq<char> {
    ascii_chars(ja4_head(hello)) + alpn_code(hello.alpn_protocols) + ascii_chars(ja4_tail(hello))
}

/// Tells whether a 16-bit code is a GREASE value.
pub fn grease(v: u16) -> (b: bool)
    ensures
        b == is_grease(v),
{
    (v & 0x0F0F) == 0x0A0A
}

/// Appends the four hexadecimal digits of a code.
fn push_hex4(out: &mut Vec<u8>, v: u16)
    ensures
        final(out)@ == old(out)@ + hex4(v),
{
    push_hex_pair(out, (v / 256) as u8, false);
    push_hex_pair(out, (v % 256) as u8, false);
    assert(out@ =~= old(out)@ + hex4(v));
}

/// Writes codes as four hexadecimal digits each, separated by commas.
fn join_codes(codes: &Vec<u16>) -> (out: Vec<u8>)
    ensures
        out@ == code_list(codes@),
{
    let mut out: Vec<u8> = Vec::new();
    let mut i: usize = 0;
    while i < codes.len()
        invariant
            i <= codes.len(),
            out@ == code_list(codes@.take(i as int)),
        decreases codes.len() - i,
    {
        proof {
            let next = codes@.take(i + 1);
            assert(next.drop_last() == codes@.take(i as int));
            assert(next.last() == codes@[i as int]);
        }
        if i > 0 {
            out.push(44);
        }
        push_hex4(&mut out, codes[i]);
        i += 1;
        assert(out@ =~= code_list(codes@.take(i as int)));
    }
    assert(codes@.take(i as int) == codes@);
    out
}

/// Computes the digest of a list of codes.
fn digest_codes(codes: &Vec<u16>) -> (out: Vec<u8>)
    ensures
        out@ == list_digest(codes@),
        out@.len() == 12,
        all_ascii(out@),
{
    if codes.len() == 0 {
        let mut out: Vec<u8> = Vec::new();
        let mut i: usize = 0;
        while i < 12
            invariant
                i <= 12,
                out@.len() == i,
                forall|k: int| 0 <= k < i ==> out@[k] == 48u8,
            decreases 12 - i,
        {
            out.push(48);
            i += 1;
        }
        assert(out@ =~= empty_digest());
        out
    } else {
        let sorted = sort_codes(codes);
        let text = join_codes(&sorted);
        let digest = sha256_digest(text.as_slice());
        let out = hex_encode(slice_subrange(digest.as_slice(), 0, 6), false);
        proof {
            lemma_hex_text_take(digest@, false, 6);
            lemma_hex_text_shape(digest@.take(6), false);
            assert(digest@.subrange(0, 6) == digest@.take(6));
        }
        out
    }
}

/// Keeps the cipher suite codes that count, in order.
fn counted_ciphers(cipher_suites: &Vec<u16>) -> (out: Vec<u16>)
    ensures
        out@ == cipher_suites@.filter(counted_cipher()),
{
    let mut out: Vec<u16> = Vec::new();
    let mut i: usize = 0;
    proof {
        reveal(Seq::filter);
    }
    while i < cipher_suites.len()
        invariant
            i <= cipher_suites.len(),
            out@ == cipher_suites@.take(i as int).filter(counted_cipher()),
        decreases cipher_suites.len() - i,
    {
        let v = cipher_suites[i];
        proof {
            assert(cipher_suites@.take(i + 1) == cipher_suites@.take(i as int).push(v));
            cipher_suites@.take(i as int).lemma_filter_push(v, counted_cipher());
        }
        if !grease(v) {
            out.push(v);
        }
        i += 1;
    }
    assert(cipher_suites@.take(i as int) == cipher_suites@);
    out
}

/// Keeps the extension types that enter the extension digest, in order.
fn digested_extensions(hello: &ClientHello) -> (out: Vec<u16>)
    ensures
        out@ == hello@.extension_types().filter(digested_extension()),
{
    let mut out: Vec<u16> = Vec::new();
    let mut i: usize = 0;
    let ghost types = hello@.extension_types();
    proof {
        reveal(Seq::filter);
    }
    while i < hello.extensions.len()
        invariant
            i <= hello.extensions.len(),
            types == hello@.extension_types(),
            types.len() == hello.extensions@.len(),
            out@ == types.take(i as int).filter(digested_extension()),
        decreases hello.extensions.len() - i,
    {
        let t = hello.extensions[i].ext_type;
        proof {
            assert(types[i as int] == t);
            assert(types.take(i + 1) == types.take(i as int).push(t));
            types.take(i as int).lemma_filter_push(t, digested_extension());
        }
        if t != EXT_SERVER_NAME && t != EXT_ALPN && !grease(t) {
            out.push(t);
        }
        i += 1;
    }
    assert(types.take(i as int) == types);
    out
}

/// The first byte of a name that is not empty.
proof fn lemma_name_has_first_byte(name: Seq<char>)
    requires
        name.len() > 0,
    ensures
        encode_utf8(name).len() > 0,
{
}

/// Appends the ALPN code to the text.
fn push_alpn_code(fp: &mut String, hello: &ClientHello)
    ensures
        final(fp)@ == old(fp)@ + alpn_code(hello@.alpn_protocols),
{
    if hello.alpn_protocols.len() == 0 || hello.alpn_protocols[0].as_str().is_empty() {
        let zeros: [u8; 2] = [48, 48];
        assert(zeros@ =~= seq![48u8, 48u8]);
        push_ascii(fp, zeros.as_slice());
        return ;
    }
    let name = hello.alpn_protocols[0].as_str();
    assert(name@ == hello@.alpn_protocols[0]);
    let n = name.unicode_len();
    let mut found = false;
    let mut first = '0';
    let mut last = '0';
    let mut i: usize = 0;
    let ghost pred = |c: char| alphanumeric(c);
    proof {
        reveal(Seq::filter);
    }
    while i < n
        invariant
            i <= n,
            n == name@.len(),
            pred == (|c: char| alphanumeric(c)),
            found == (name@.take(i as int).filter(pred).len() > 0),
            found ==> first == name@.take(i as int).filter(pred).first(),
            found ==> last == name@.take(i as int).filter(pred).last(),
        decreases n - i,
    {
        let c = name.get_char(i);
        proof {
            assert(name@.take(i + 1) == name@.take(i as int).push(c));
            name@.take(i as int).lemma_filter_push(c, pred);
        }
        if c.is_alphanumeric() {
            if !found {
                first = c;
                found = true;
            }
            last = c;
        }
        i += 1;
    }
    assert(name@.take(i as int) == name@);
    if found {
        fp.push(first);
        fp.push(last);
        assert(fp@ =~= old(fp)@ + alpn_code(hello@.alpn_protocols));
    } else {
        proof {
            lemma_name_has_first_byte(name@);
        }
        let b = name.as_bytes()[0];
        let mut digits: Vec<u8> = Vec::new();
        push_hex_pair(&mut digits, b, false);
        proof {
            lemma_hex_digit_ascii(b as int / 16);
            lemma_hex_digit_ascii(b as int % 16);
            assert(digits@ =~= hex_pair(b, false));
        }
        push_ascii(fp, digits.as_slice());
    }
}

/// Computes the fingerprint of a ClientHello.
pub fn compute_ja4(hello: &ClientHello) -> (fp: String)
    ensures
        fp@ == ja4(hello@),
{
    let ciphers = counted_ciphers(&hello.cipher_suites);
    let cipher_hash = digest_codes(&ciphers);
    let extension_types = digested_extensions(hello);
    let extension_hash = digest_codes(&extension_types);

    let mut head: Vec<u8> = Vec::new();
    head.push(116);
    if hello.tls_version == VERSION_TAGGED_13 {
        head.push(49);
        head.push(51);
    } else {
        head.push(49);
        head.push(50);
    }
    head.push(if hello.has_sni { 100 } else { 105 });
    let ghost tagged = head@;
    push_decimal_2(&mut head, ciphers.len() as u128);
    push_decimal_2(&mut head, hello.extensions.len() as u128);
    proof {
        assert(tagged =~= seq![116u8] + version_tag(hello.tls_version) + seq![
            sni_tag(hello.has_sni),
        ]);
        lemma_decimal_text_shape(ciphers.len() as nat);
        lemma_decimal_text_shape(hello.extensions.len() as nat);
        assert(head@ =~= ja4_head(hello@));
    }

    let mut tail: Vec<u8> = Vec::new();
    tail.push(95);
    tail.extend_from_slice(cipher_hash.as_slice());
    tail.push(95);
    tail.extend_from_slice(extension_hash.as_slice());
    assert(tail@ =~= ja4_tail(hello@));

    let mut fp = String::new();
    push_ascii(&mut fp, head.as_slice());
    push_alpn_code(&mut fp, hello);
    push_ascii(&mut fp, tail.as_slice());
    assert(fp@ =~= ja4(hello@));
    fp
}

} // verus!
