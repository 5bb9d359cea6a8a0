//! What holds of every encoding.

use crate::encore::hexadecimal::framed_hex;
use crate::encore::hexadecimal::lemma_hex_text_pair;
use crate::encore::hexadecimal::stripped;
use crate::encore::hexcodec::hex_digit_value;
use crate::encore::hexcodec::hex_value;
use crate::encore::hexcodec::is_hex_text;
use crate::text::hex_digit_lower;
use crate::text::hex_digit_upper;
use crate::text::hex_text;
use vstd::prelude::*;

verus! {

/// A hexadecimal digit of either case has the value of the nibble that it was written for.
pub proof fn lemma_digit_value(n: int)
    requires
        0 <= n < 16,
    ensures
        hex_digit_value(hex_digit_lower(n)) == Some(n),
        hex_digit_value(hex_digit_upper(n)) == Some(n),
{
}

/// The hexadecimal encoding of bytes, in either case, is hexadecimal text, and stands for
/// the bytes that were encoded.
pub proof fn hex_text_stands_for_its_bytes(bytes: Seq<u8>, upper: bool)
    ensures
        is_hex_text(hex_text(bytes, upper)),
        hex_value(hex_text(bytes, upper)) == bytes,
{
    let text = hex_text(bytes, upper);
    if bytes.len() == 0 {
        assert(hex_value(text) =~= bytes);
    } else {
        lemma_hex_text_pair(bytes, upper, 0);
        assert forall|i: int| 0 <= i < text.len() implies hex_digit_value(#[trigger] text[i]) is Some by {
            let at = i / 2;
            lemma_hex_text_pair(bytes, upper, at);
            lemma_digit_value(bytes[at] as int / 16);
            lemma_digit_value(bytes[at] as int % 16);
            assert(i == 2 * at || i == 2 * at + 1);
        }
        assert forall|k: int| 0 <= k < bytes.len() implies hex_value(text)[k] == bytes[k] by {
            lemma_hex_text_pair(bytes, upper, k);
            lemma_digit_value(bytes[k] as int / 16);
            lemma_digit_value(bytes[k] as int % 16);
        }
        assert(hex_value(text) =~= bytes);
    }
}

/// Without a prefix and a delimiter, encoding writes the plain hexadecimal text.
pub proof fn unframed_hex_is_hex_text(input: Seq<u8>, upper: bool)
    ensures
        framed_hex(input, upper, Seq::empty(), Seq::empty()) == hex_text(input, upper),
    decreases input.len(),
{
    if input.len() == 1 {
        assert(input.drop_last().len() == 0);
        assert(hex_text(input.drop_last(), upper) =~= Seq::<u8>::empty());
        assert(input[0] == input.last());
        assert(framed_hex(input, upper, Seq::empty(), Seq::empty()) =~= hex_text(input, upper));
    } else if input.len() > 1 {
        unframed_hex_is_hex_text(input.drop_last(), upper);
        assert(framed_hex(input, upper, Seq::empty(), Seq::empty()) =~= hex_text(input, upper));
    }
}

/// Decoding undoes encoding: where neither a prefix nor a delimiter is in use, the text
/// that encoding writes for bytes, in either case, decodes to those bytes.
pub proof fn hex_decoding_undoes_encoding(input: Seq<u8>, upper: bool)
    ensures
        ({
            let text = framed_hex(input, upper, Seq::empty(), Seq::empty());
            &&& stripped(text, None, None) == text
            &&& is_hex_text(text)
            &&& hex_value(text) == input
        }),
{
    unframed_hex_is_hex_text(input, upper);
    hex_text_stands_for_its_bytes(input, upper);
}

} // verus!
