//! ASCII text helpers: hexadecimal and decimal digits, and strings built from ASCII bytes.

use vstd::prelude::*;
use vstd::string::StrSliceExecFns;

verus! {

/// The ASCII code of the lowercase hexadecimal digit for a nibble.
pub open spec fn hex_digit_lower(n: int) -> u8 {
    if n < 10 {
        (48 + n) as u8
    } else {
        (87 + n) as u8
    }
}

/// The ASCII code of the uppercase hexadecimal digit for a nibble.
pub open spec fn hex_digit_upper(n: int) -> u8 {
    if n < 10 {
        (48 + n) as u8
    } else {
        (55 + n) as u8
    }
}

/// The two hexadecimal digits of one byte, high nibble first.
pub open spec fn hex_pair(b: u8, upper: bool) -> Seq<u8> {
    if upper {
        seq![hex_digit_upper(b as int / 16), hex_digit_upper(b as int % 16)]
    } else {
        seq![hex_digit_lower(b as int / 16), hex_digit_lower(b as int % 16)]
    }
}

/// The hexadecimal encoding of a byte string: two digits per byte, in order.
pub open spec fn hex_text(bytes: Seq<u8>, upper: bool) -> Seq<u8>
    decreases bytes.len(),
{
    if bytes.len() == 0 {
        Seq::empty()
    } else {
        hex_text(bytes.drop_last(), upper) + hex_pair(bytes.last(), upper)
    }
}

/// The decimal digits of a number, most significant first, without leading zeros.
pub open spec fn decimal_text(n: nat) -> Seq<u8>
    decreases n,
{
    if n < 10 {
        seq![(48 + n) as u8]
    } else {
        decimal_text(n / 10) + seq![(48 + n % 10) as u8]
    }
}

/// The decimal digits of a number, padded on the left with a zero to at least two digits.
pub open spec fn decimal_text_2(n: nat) -> Seq<u8> {
    if n < 10 {
        seq![48u8] + decimal_text(n)
    } else {
        decimal_text(n)
    }
}

/// Whether every byte is an ASCII code.
pub open spec fn all_ascii(bytes: Seq<u8>) -> bool {
    forall|i: int| 0 <= i < bytes.len() ==> bytes[i] < 128
}

/// The characters that a string of ASCII codes stands for.
pub open spec fn ascii_chars(bytes: Seq<u8>) -> Seq<char> {
    Seq::new(bytes.len(), |i: int| bytes[i] as char)
}

/// `String::push` appends one character to the end of the string.
pub assume_specification[ String::push ](s: &mut String, ch: char)
    ensures
        final(s)@ == old(s)@.push(ch),
;

/// Every digit produced for a nibble is an ASCII letter or digit.
pub proof fn lemma_hex_digit_ascii(n: int)
    requires
        0 <= n < 16,
    ensures
        hex_digit_lower(n) < 128,
        hex_digit_upper(n) < 128,
        hex_digit_lower(n) == if n < 10 { 48 + n } else { 87 + n },
        hex_digit_upper(n) == if n < 10 { 48 + n } else { 55 + n },
{
}

/// The hexadecimal encoding has two digits per byte, all of them ASCII.
pub proof fn lemma_hex_text_shape(bytes: Seq<u8>, upper: bool)
    ensures
        hex_text(bytes, upper).len() == 2 * bytes.len(),
        all_ascii(hex_text(bytes, upper)),
    decreases bytes.len(),
{
    if bytes.len() > 0 {
        lemma_hex_text_shape(bytes.drop_last(), upper);
        lemma_hex_digit_ascii(bytes.last() as int / 16);
        lemma_hex_digit_ascii(bytes.last() as int % 16);
    }
}

/// Encoding a prefix of the bytes gives a prefix of the encoding.
pub proof fn lemma_hex_text_take(bytes: Seq<u8>, upper: bool, k: int)
    requires
        0 <= k <= bytes.len(),
    ensures
        hex_text(bytes.take(k), upper) == hex_text(bytes, upper).take(2 * k),
    decreases bytes.len(),
{
    lemma_hex_text_shape(bytes, upper);
    if k == bytes.len() {
        assert(bytes.take(k) == bytes);
        assert(hex_text(bytes, upper).take(2 * k) == hex_text(bytes, upper));
    } else {
        let front = bytes.drop_last();
        lemma_hex_text_take(front, upper, k);
        lemma_hex_text_shape(front, upper);
        assert(front.take(k) == bytes.take(k));
        assert(hex_text(bytes, upper).take(2 * k) == hex_text(front, upper).take(2 * k));
    }
}

/// The decimal digits of a number are ASCII digits, and there is at least one.
pub proof fn lemma_decimal_text_shape(n: nat)
    ensures
        decimal_text(n).len() >= 1,
        n >= 10 ==> decimal_text(n).len() >= 2,
        all_ascii(decimal_text(n)),
    decreases n,
{
    if n >= 10 {
        lemma_decimal_text_shape(n / 10);
    }
}

/// The hexadecimal digits of one nibble as an ASCII code.
pub(crate) fn hex_digit(n: u8, upper: bool) -> (d: u8)
    requires
        n < 16,
    ensures
        d == if upper { hex_digit_upper(n as int) } else { hex_digit_lower(n as int) },
        d < 128,
{
    if n < 10 {
        48 + n
    } else if upper {
        55 + n
    } else {
        87 + n
    }
}

/// Appends the two hexadecimal digits of `b` to `out`.
pub(crate) fn push_hex_pair(out: &mut Vec<u8>, b: u8, upper: bool)
    ensures
        final(out)@ == old(out)@ + hex_pair(b, upper),
{
    let hi = hex_digit(b / 16, upper);
    let lo = hex_digit(b % 16, upper);
    out.push(hi);
    out.push(lo);
    assert(out@ =~= old(out)@ + hex_pair(b, upper));
}

/// Encodes `data` in hexadecimal, two digits per byte.
pub(crate) fn hex_encode(data: &[u8], upper: bool) -> (out: Vec<u8>)
    ensures
        out@ == hex_text(data@, upper),
{
    let mut out: Vec<u8> = Vec::new();
    let mut i: usize = 0;
    while i < data.len()
        invariant
            i <= data.len(),
            out@ == hex_text(data@.take(i as int), upper),
        decreases data.len() - i,
    {
        proof {
            let next = data@.take(i + 1);
            assert(next.drop_last() == data@.take(i as int));
            assert(next.last() == data@[i as int]);
        }
        push_hex_pair(&mut out, data[i], upper);
        i += 1;
    }
    assert(data@.take(i as int) == data@);
    out
}

/// Appends the decimal digits of `n` to `out`.
pub(crate) fn push_decimal(out: &mut Vec<u8>, n: u128)
    ensures
        final(out)@ == old(out)@ + decimal_text(n as nat),
    decreases n,
{
    if n >= 10 {
        push_decimal(out, n / 10);
    }
    let digit: u8 = (n % 10) as u8;
    out.push(48 + digit);
    assert(out@ =~= old(out)@ + decimal_text(n as nat));
}

/// Appends the decimal digits of `n` to `out`, with a leading zero where `n` has one digit.
pub(crate) fn push_decimal_2(out: &mut Vec<u8>, n: u128)
    ensures
        final(out)@ == old(out)@ + decimal_text_2(n as nat),
{
    if n < 10 {
        out.push(48);
    }
    push_decimal(out, n);
    assert(out@ =~= old(out)@ + decimal_text_2(n as nat));
}

/// Appends to `s` the characters that the ASCII codes in `bytes` stand for.
pub(crate) fn push_ascii(s: &mut String, bytes: &[u8])
    requires
        all_ascii(bytes@),
    ensures
        final(s)@ == old(s)@ + ascii_chars(bytes@),
{
    let mut i: usize = 0;
    while i < bytes.len()
        invariant
            i <= bytes.len(),
            all_ascii(bytes@),
            s@ == old(s)@ + ascii_chars(bytes@.take(i as int)),
        decreases bytes.len() - i,
    {
        let b = bytes[i];
        s.push(b as char);
        i += 1;
        assert(s@ =~= old(s)@ + ascii_chars(bytes@.take(i as int)));
    }
    assert(bytes@.take(i as int) == bytes@);
}

/// The text of a string that may be absent.
pub open spec fn optional_text(text: Option<String>) -> Option<Seq<char>> {
    match text {
        Some(t) => Some(t@),
        None => None,
    }
}

/// Tells whether two byte strings are equal.
pub(crate) fn same_bytes(a: &[u8], b: &[u8]) -> (same: bool)
    ensures
        same == (a@ == b@),
{
    if a.len() != b.len() {
        return false;
    }
    let mut i: usize = 0;
    while i < a.len()
        invariant
            i <= a.len(),
            a@.len() == b@.len(),
            forall|k: int| 0 <= k < i ==> a@[k] == b@[k],
        decreases a.len() - i,
    {
        if a[i] != b[i] {
            return false;
        }
        i += 1;
    }
    assert(a@ =~= b@);
    true
}

/// Tells whether two texts are equal.
pub(crate) fn same_text(a: &str, b: &str) -> (same: bool)
    ensures
        same == (a@ == b@),
{
    let n = a.unicode_len();
    if n != b.unicode_len() {
        return false;
    }
    let mut i: usize = 0;
    while i < n
        invariant
            i <= n,
            n == a@.len(),
            n == b@.len(),
            forall|k: int| 0 <= k < i ==> a@[k] == b@[k],
        decreases n - i,
    {
        if a.get_char(i) != b.get_char(i) {
            return false;
        }
        i += 1;
    }
    assert(a@ =~= b@);
    true
}

/// The characters of a text, in order.
pub(crate) fn chars_of(text: &str) -> (chars: Vec<char>)
    ensures
        chars@ == text@,
{
    let n = text.unicode_len();
    let mut chars: Vec<char> = Vec::new();
    let mut i: usize = 0;
    while i < n
        invariant
            i <= n,
            n == text@.len(),
            chars@ == text@.take(i as int),
        decreases n - i,
    {
        chars.push(text.get_char(i));
        i += 1;
        assert(chars@ =~= text@.take(i as int));
    }
    assert(text@.take(i as int) == text@);
    chars
}

/// The text made of the characters from `from` up to `to`.
pub(crate) fn string_of(chars: &Vec<char>, from: usize, to: usize) -> (text: String)
    requires
        from <= to <= chars@.len(),
    ensures
        text@ == chars@.subrange(from as int, to as int),
{
    let mut text = String::new();
    let mut i: usize = from;
    while i < to
        invariant
            from <= i <= to <= chars@.len(),
            text@ == chars@.subrange(from as int, i as int),
        decreases to - i,
    {
        text.push(chars[i]);
        i += 1;
        assert(text@ =~= chars@.subrange(from as int, i as int));
    }
    text
}

} // verus!
