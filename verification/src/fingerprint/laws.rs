//! What holds of every fingerprint.

use crate::fingerprint::client_hello::ClientHelloView;
use crate::fingerprint::client_hello::ExtensionView;
use crate::fingerprint::ja4::alphanumerics;
use crate::fingerprint::ja4::alpn_code;
use crate::fingerprint::ja4::ascii_alphanumeric;
use crate::fingerprint::ja4::cipher_count;
use crate::fingerprint::ja4::cipher_digest;
use crate::fingerprint::ja4::counted_cipher;
use crate::fingerprint::ja4::digested_extension;
use crate::fingerprint::ja4::empty_digest;
use crate::fingerprint::ja4::extension_digest;
use crate::fingerprint::ja4::hex4;
use crate::fingerprint::ja4::is_grease;
use crate::fingerprint::ja4::ja4;
use crate::fingerprint::record::fingerprint_of;
use crate::text::ascii_chars;
use crate::text::hex_digit_lower;
use vstd::prelude::*;

verus! {

/// Putting a value in a list does not change what a filter keeps, where the filter does not
/// keep the value.
pub proof fn lemma_insert_filtered_out<A>(s: Seq<A>, at: int, v: A, keep: spec_fn(A) -> bool)
    requires
        0 <= at <= s.len(),
        !keep(v),
    ensures
        s.insert(at, v).filter(keep) == s.filter(keep),
{
    let front = s.subrange(0, at);
    let back = s.subrange(at, s.len() as int);
    assert(s == front + back);
    assert(s.insert(at, v) == front.push(v) + back);
    front.lemma_filter_push(v, keep);
    Seq::filter_distributes_over_add(front.push(v), back, keep);
    Seq::filter_distributes_over_add(front, back, keep);
}

/// A GREASE value put anywhere in the cipher suite list changes neither the cipher digest nor
/// the count of cipher suites.
pub proof fn grease_cipher_is_invisible(cipher_suites: Seq<u16>, at: int, v: u16)
    requires
        0 <= at <= cipher_suites.len(),
        is_grease(v),
    ensures
        cipher_digest(cipher_suites.insert(at, v)) == cipher_digest(cipher_suites),
        cipher_count(cipher_suites.insert(at, v)) == cipher_count(cipher_suites),
{
    lemma_insert_filtered_out(cipher_suites, at, v, counted_cipher());
}

/// A GREASE value put anywhere in the list of extension types does not change the extension
/// digest.
pub proof fn grease_extension_type_is_invisible(extension_types: Seq<u16>, at: int, v: u16)
    requires
        0 <= at <= extension_types.len(),
        is_grease(v),
    ensures
        extension_digest(extension_types.insert(at, v)) == extension_digest(extension_types),
{
    lemma_insert_filtered_out(extension_types, at, v, digested_extension());
}

/// A list after values have been put into it one after the other, each at its place in the
/// list as it then stands.
pub open spec fn with_insertions(list: Seq<u16>, insertions: Seq<(int, u16)>) -> Seq<u16>
    decreases insertions.len(),
{
    if insertions.len() == 0 {
        list
    } else {
        let before = with_insertions(list, insertions.drop_last());
        before.insert(insertions.last().0, insertions.last().1)
    }
}

/// Whether every insertion puts a GREASE value at a place that the list has.
pub open spec fn grease_insertions(list: Seq<u16>, insertions: Seq<(int, u16)>) -> bool
    decreases insertions.len(),
{
    if insertions.len() == 0 {
        true
    } else {
        let before = with_insertions(list, insertions.drop_last());
        &&& grease_insertions(list, insertions.drop_last())
        &&& 0 <= insertions.last().0 <= before.len()
        &&& is_grease(insertions.last().1)
    }
}

/// Any number of GREASE values put anywhere in the cipher suite list change neither the
/// cipher digest nor the count of cipher suites.
pub proof fn grease_ciphers_are_invisible(cipher_suites: Seq<u16>, insertions: Seq<(int, u16)>)
    requires
        grease_insertions(cipher_suites, insertions),
    ensures
        cipher_digest(with_insertions(cipher_suites, insertions)) == cipher_digest(cipher_suites),
        cipher_count(with_insertions(cipher_suites, insertions)) == cipher_count(cipher_suites),
    decreases insertions.len(),
{
    if insertions.len() > 0 {
        let before = with_insertions(cipher_suites, insertions.drop_last());
        grease_ciphers_are_invisible(cipher_suites, insertions.drop_last());
        grease_cipher_is_invisible(before, insertions.last().0, insertions.last().1);
    }
}

/// Any number of GREASE values put anywhere in the list of extension types do not change
/// the extension digest.
pub proof fn grease_extension_types_are_invisible(
    extension_types: Seq<u16>,
    insertions: Seq<(int, u16)>,
)
    requires
        grease_insertions(extension_types, insertions),
    ensures
        extension_digest(with_insertions(extension_types, insertions)) == extension_digest(
            extension_types,
        ),
    decreases insertions.len(),
{
    if insertions.len() > 0 {
        let before = with_insertions(extension_types, insertions.drop_last());
        grease_extension_types_are_invisible(extension_types, insertions.drop_last());
        grease_extension_type_is_invisible(before, insertions.last().0, insertions.last().1);
    }
}

/// An extension of a GREASE type put anywhere among the extensions of a ClientHello, whatever
/// its payload, changes neither digest nor the count of cipher suites.
pub proof fn grease_extension_is_invisible(hello: ClientHelloView, at: int, extension: ExtensionView)
    requires
        0 <= at <= hello.extensions.len(),
        is_grease(extension.ext_type),
    ensures
        ({
            let padded = ClientHelloView {
                extensions: hello.extensions.insert(at, extension),
                ..hello
            };
            &&& extension_digest(padded.extension_types()) == extension_digest(
                hello.extension_types(),
            )
            &&& cipher_digest(padded.cipher_suites) == cipher_digest(hello.cipher_suites)
            &&& cipher_count(padded.cipher_suites) == cipher_count(hello.cipher_suites)
        }),
{
    let padded = ClientHelloView { extensions: hello.extensions.insert(at, extension), ..hello };
    assert(padded.extension_types() =~= hello.extension_types().insert(at, extension.ext_type));
    grease_extension_type_is_invisible(hello.extension_types(), at, extension.ext_type);
}

/// A GREASE cipher suite put anywhere in the cipher suite list of a ClientHello leaves the
/// whole fingerprint as it was.
pub proof fn grease_cipher_keeps_fingerprint(hello: ClientHelloView, at: int, v: u16)
    requires
        0 <= at <= hello.cipher_suites.len(),
        is_grease(v),
    ensures
        ja4(ClientHelloView { cipher_suites: hello.cipher_suites.insert(at, v), ..hello }) == ja4(
            hello,
        ),
{
    grease_cipher_is_invisible(hello.cipher_suites, at, v);
}

/// A list in which nothing counts has the digest of twelve zeros: so has the empty cipher
/// suite list, and so has the empty extension list, each whatever the other holds.
pub proof fn nothing_to_digest_gives_zeros(cipher_suites: Seq<u16>, extension_types: Seq<u16>)
    ensures
        cipher_digest(Seq::empty()) == empty_digest(),
        extension_digest(Seq::empty()) == empty_digest(),
        cipher_suites.filter(counted_cipher()).len() == 0 ==> cipher_digest(cipher_suites)
            == empty_digest(),
        extension_types.filter(digested_extension()).len() == 0 ==> extension_digest(
            extension_types,
        ) == empty_digest(),
        empty_digest().len() == 12,
        forall|i: int| 0 <= i < 12 ==> empty_digest()[i] == 48u8,
{
    reveal(Seq::filter);
    assert(Seq::<u16>::empty().filter(counted_cipher()).len() == 0);
    assert(Seq::<u16>::empty().filter(digested_extension()).len() == 0);
}

/// Where the first protocol name has exactly one alphanumeric character, the ALPN code is
/// that character twice.
pub proof fn single_alphanumeric_is_doubled(protocols: Seq<Seq<char>>)
    requires
        protocols.len() > 0,
        alphanumerics(protocols[0]).len() == 1,
    ensures
        alpn_code(protocols) == seq![alphanumerics(protocols[0])[0], alphanumerics(protocols[0])[0]],
{
    assert(protocols[0].len() > 0) by {
        reveal(Seq::filter);
    }
}

/// A first protocol name of one character that is an ASCII letter or digit gives that
/// character twice as the ALPN code, whatever protocols follow.
pub proof fn single_ascii_character_is_doubled(protocols: Seq<Seq<char>>, c: char)
    requires
        protocols.len() > 0,
        protocols[0] == seq![c],
        ascii_alphanumeric(c),
    ensures
        alpn_code(protocols) == seq![c, c],
{
    reveal_with_fuel(Seq::filter, 2);
    assert(seq![c].drop_last() =~= Seq::<char>::empty());
    assert(alphanumerics(seq![c]) =~= seq![c]);
}

/// Without a first protocol name to take it from, the ALPN code is `00`: so where no
/// protocol is advertised, and so where the first name is empty.
pub proof fn no_name_gives_zeros(protocols: Seq<Seq<char>>)
    requires
        protocols.len() == 0 || protocols[0].len() == 0,
    ensures
        alpn_code(protocols) == seq!['0', '0'],
{
    assert(ascii_chars(seq![48u8, 48u8]) =~= seq!['0', '0']);
}

/// Whether one text comes before another, or is equal to it, in lexicographic order.
pub open spec fn lexicographic_le(a: Seq<u8>, b: Seq<u8>) -> bool
    decreases a.len(),
{
    if a.len() == 0 {
        true
    } else if b.len() == 0 {
        false
    } else {
        a[0] < b[0] || (a[0] == b[0] && lexicographic_le(a.skip(1), b.skip(1)))
    }
}

/// Lexicographic order on texts of four digits.
proof fn lemma_lexicographic_four(a: Seq<u8>, b: Seq<u8>)
    requires
        a.len() == 4,
        b.len() == 4,
    ensures
        lexicographic_le(a, b) <==> (a[0] < b[0] || (a[0] == b[0] && (a[1] < b[1] || (a[1] == b[1]
            && (a[2] < b[2] || (a[2] == b[2] && a[3] <= b[3])))))),
{
    reveal_with_fuel(lexicographic_le, 6);
    assert(a.skip(1).skip(1).skip(1).skip(1).len() == 0);
    assert(a.skip(1)[0] == a[1] && b.skip(1)[0] == b[1]);
    assert(a.skip(1).skip(1)[0] == a[2] && b.skip(1).skip(1)[0] == b[2]);
    assert(a.skip(1).skip(1).skip(1)[0] == a[3] && b.skip(1).skip(1).skip(1)[0] == b[3]);
}

/// One of the four nibbles of a code, counted from the most significant one.
pub open spec fn nibble(v: u16, at: int) -> int {
    if at == 0 {
        v as int / 4096
    } else if at == 1 {
        (v as int / 256) % 16
    } else if at == 2 {
        (v as int / 16) % 16
    } else {
        v as int % 16
    }
}

/// A code is made of its four nibbles, and its text of their digits.
proof fn lemma_hex4_digits(v: u16)
    ensures
        hex4(v).len() == 4,
        forall|at: int| 0 <= at < 4 ==> 0 <= #[trigger] nibble(v, at) < 16,
        forall|at: int| 0 <= at < 4 ==> hex4(v)[at] == hex_digit_lower(#[trigger] nibble(v, at)),
        v as int == 4096 * nibble(v, 0) + 256 * nibble(v, 1) + 16 * nibble(v, 2) + nibble(v, 3),
{
    let hi = (v / 256) as u8;
    let lo = (v % 256) as u8;
    assert(hi as int == v as int / 256 && lo as int == v as int % 256);
    assert(hi as int / 16 == nibble(v, 0) && hi as int % 16 == nibble(v, 1));
    assert(lo as int / 16 == nibble(v, 2) && lo as int % 16 == nibble(v, 3));
    assert(hex4(v) =~= seq![
        hex_digit_lower(nibble(v, 0)),
        hex_digit_lower(nibble(v, 1)),
        hex_digit_lower(nibble(v, 2)),
        hex_digit_lower(nibble(v, 3)),
    ]);
}

/// The digits of nibbles compare as the nibbles do.
proof fn lemma_digit_order(m: int, n: int)
    requires
        0 <= m < 16,
        0 <= n < 16,
    ensures
        hex_digit_lower(m) < hex_digit_lower(n) <==> m < n,
        hex_digit_lower(m) == hex_digit_lower(n) <==> m == n,
{
}

/// The four hexadecimal digits of codes compare as the codes do: sorting the texts
/// lexicographically is sorting the codes in ascending order.
pub proof fn hex4_order_is_numeric_order(a: u16, b: u16)
    ensures
        lexicographic_le(hex4(a), hex4(b)) <==> a <= b,
{
    lemma_hex4_digits(a);
    lemma_hex4_digits(b);
    lemma_lexicographic_four(hex4(a), hex4(b));
    assert(0 <= nibble(a, 0) < 16 && 0 <= nibble(a, 1) < 16 && 0 <= nibble(a, 2) < 16 && 0
        <= nibble(a, 3) < 16);
    assert(0 <= nibble(b, 0) < 16 && 0 <= nibble(b, 1) < 16 && 0 <= nibble(b, 2) < 16 && 0
        <= nibble(b, 3) < 16);
    lemma_digit_order(nibble(a, 0), nibble(b, 0));
    lemma_digit_order(nibble(a, 1), nibble(b, 1));
    lemma_digit_order(nibble(a, 2), nibble(b, 2));
    lemma_digit_order(nibble(a, 3), nibble(b, 3));
}

/// The fingerprint of a record is a function of its bytes: equal records have equal
/// fingerprints, or fail alike.
pub proof fn fingerprint_is_repeatable(first: Seq<u8>, second: Seq<u8>)
    requires
        first == second,
    ensures
        fingerprint_of(first) == fingerprint_of(second),
{
}

} // verus!
