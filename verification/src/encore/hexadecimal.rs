use crate::encore::errors::invalid_hex;
use crate::encore::errors::OperationError;
use crate::encore::errors::OperationErrorView;
use crate::encore::hexcodec::hex_decode;
use crate::encore::hexcodec::hex_encode_lower;
use crate::encore::hexcodec::hex_encode_upper;
use crate::encore::hexcodec::hex_value;
use crate::encore::hexcodec::is_hex_text;
use crate::encore::hexcodec::replace_all;
use crate::encore::hexcodec::replaced;
use crate::encore::operation::Operation;
use crate::text::hex_pair;
use crate::text::optional_text;
use crate::text::hex_text;
use crate::text::lemma_hex_text_shape;
use vstd::prelude::*;
use vstd::utf8::encode_utf8;

verus! {

/// The bytes of a text that may be absent: none for an absent one.
pub open spec fn bytes_of(text: Option<Seq<char>>) -> Seq<u8> {
    match text {
        Some(t) => encode_utf8(t),
        None => Seq::empty(),
    }
}

/// The input with every prefix removed, and then every delimiter, where they are set.
pub open spec fn stripped(input: Seq<u8>, prefix: Option<Seq<char>>, delimiter: Option<Seq<char>>) -> Seq<
    u8,
> {
    let without_prefix = match prefix {
        Some(p) => replaced(input, encode_utf8(p), Seq::empty()),
        None => input,
    };
    match delimiter {
        Some(d) => replaced(without_prefix, encode_utf8(d), Seq::empty()),
        None => without_prefix,
    }
}

/// The hexadecimal digits of the input, every two of them behind the prefix, with the
/// delimiter between each two such groups.
pub open spec fn framed_hex(input: Seq<u8>, upper: bool, prefix: Seq<u8>, delimiter: Seq<u8>) -> Seq<
    u8,
>
    decreases input.len(),
{
    if input.len() == 0 {
        Seq::empty()
    } else if input.len() == 1 {
        prefix + hex_pair(input[0], upper)
    } else {
        framed_hex(input.drop_last(), upper, prefix, delimiter) + delimiter + prefix + hex_pair(
            input.last(),
            upper,
        )
    }
}

/// The two digits that stand for one byte, where they stand in the text.
pub proof fn lemma_hex_text_pair(bytes: Seq<u8>, upper: bool, i: int)
    requires
        0 <= i < bytes.len(),
    ensures
        hex_text(bytes, upper).len() == 2 * bytes.len(),
        hex_text(bytes, upper)[2 * i] == hex_pair(bytes[i], upper)[0],
        hex_text(bytes, upper)[2 * i + 1] == hex_pair(bytes[i], upper)[1],
    decreases bytes.len(),
{
    lemma_hex_text_shape(bytes, upper);
    lemma_hex_text_shape(bytes.drop_last(), upper);
    if i < bytes.len() - 1 {
        lemma_hex_text_pair(bytes.drop_last(), upper, i);
    }
}

/// Decodes hexadecimal text, after removing a prefix and a delimiter from it.
#[derive(Clone)]
pub struct HexDecode {
    prefix: Option<String>,
    delimiter: Option<String>,
}

/// The case of hexadecimal digits.
#[derive(Clone, Copy, Debug, PartialEq, Eq, Structural)]
pub enum HexFormat {
    Upper,
    Lower,
}

impl Operation for HexDecode {
    open spec fn accepts(&self, input: Seq<u8>) -> bool {
        true
    }

    fn is_accepted(&self, input: &[u8]) -> (b: bool) {
        true
    }

    open spec fn outcome(&self, input: Seq<u8>) -> Result<Seq<u8>, OperationErrorView> {
        let text = stripped(input, self.prefix(), self.delimiter());
        if is_hex_text(text) {
            Ok(hex_value(text))
        } else {
            Err(invalid_hex())
        }
    }

    fn execute(&self, input: &[u8]) -> (r: Result<Vec<u8>, OperationError>) {
        let empty: [u8; 0] = [];
        assert(empty@ =~= Seq::<u8>::empty());
        let without_prefix = match &self.prefix {
            Some(p) => replace_all(input, p.as_str().as_bytes(), empty.as_slice()),
            None => vstd::slice::slice_to_vec(input),
        };
        let text = match &self.delimiter {
            Some(d) => replace_all(without_prefix.as_slice(), d.as_str().as_bytes(), empty.as_slice()),
            None => without_prefix,
        };
        match hex_decode(text.as_slice()) {
            Ok(bytes) => Ok(bytes),
            Err(e) => Err(OperationError::from_hex_error(e)),
        }
    }
}

impl HexDecode {
    /// The prefix that the operation removes.
    pub closed spec fn prefix(&self) -> Option<Seq<char>> {
        optional_text(self.prefix)
    }

    /// The delimiter that the operation removes.
    pub closed spec fn delimiter(&self) -> Option<Seq<char>> {
        optional_text(self.delimiter)
    }

    pub fn new(prefix: Option<String>, delimiter: Option<String>) -> (op: Self)
        ensures
            op.prefix() == optional_text(prefix),
            op.delimiter() == optional_text(delimiter),
    {
        HexDecode { prefix, delimiter }
    }
}

/// Encodes bytes as hexadecimal text, every byte behind a prefix, with a delimiter between
/// the bytes.
#[derive(Clone)]
pub struct HexEncode {
    format: HexFormat,
    prefix: Option<String>,
    delimiter: Option<String>,
}

impl Operation for HexEncode {
    open spec fn accepts(&self, input: Seq<u8>) -> bool {
        true
    }

    fn is_accepted(&self, input: &[u8]) -> (b: bool) {
        true
    }

    open spec fn outcome(&self, input: Seq<u8>) -> Result<Seq<u8>, OperationErrorView> {
        Ok(
            framed_hex(
                input,
                self.format() == HexFormat::Upper,
                bytes_of(self.prefix()),
                bytes_of(self.delimiter()),
            ),
        )
    }

    fn execute(&self, input: &[u8]) -> (r: Result<Vec<u8>, OperationError>) {
        let upper = match self.format {
            HexFormat::Lower => false,
            HexFormat::Upper => true,
        };
        let digits = if upper {
            hex_encode_upper(input)
        } else {
            hex_encode_lower(input)
        };
        let empty: [u8; 0] = [];
        assert(empty@ =~= Seq::<u8>::empty());
        let prefix: &[u8] = match &self.prefix {
            Some(p) => p.as_str().as_bytes(),
            None => empty.as_slice(),
        };
        let delimiter: &[u8] = match &self.delimiter {
            Some(d) => d.as_str().as_bytes(),
            None => empty.as_slice(),
        };
        proof {
            lemma_hex_text_shape(input@, upper);
        }
        let digit_count = digits.len();
        let mut output: Vec<u8> = Vec::new();
        let mut i: usize = 0;
        while i < input.len()
            invariant
                i <= input.len(),
                digit_count == 2 * input@.len(),
                digits@ == hex_text(input@, upper),
                digits@.len() == 2 * input@.len(),
                output@ == framed_hex(input@.take(i as int), upper, prefix@, delimiter@),
            decreases input.len() - i,
        {
            proof {
                let next = input@.take(i + 1);
                assert(next.drop_last() == input@.take(i as int));
                assert(next.last() == input@[i as int]);
                lemma_hex_text_pair(input@, upper, i as int);
            }
            if i > 0 {
                output.extend_from_slice(delimiter);
            }
            output.extend_from_slice(prefix);
            output.push(digits[2 * i]);
            output.push(digits[2 * i + 1]);
            i += 1;
            assert(output@ =~= framed_hex(input@.take(i as int), upper, prefix@, delimiter@));
        }
        assert(input@.take(i as int) == input@);
        Ok(output)
    }
}

impl HexEncode {
    /// The case of the digits that the operation writes.
    pub closed spec fn format(&self) -> HexFormat {
        self.format
    }

    /// The prefix that the operation writes before every byte.
    pub closed spec fn prefix(&self) -> Option<Seq<char>> {
        optional_text(self.prefix)
    }

    /// The delimiter that the operation writes between the bytes.
    pub closed spec fn delimiter(&self) -> Option<Seq<char>> {
        optional_text(self.delimiter)
    }

    pub fn new(format: HexFormat, prefix: Option<String>, delimiter: Option<String>) -> (op: Self)
        ensures
            op.format() == format,
            op.prefix() == optional_text(prefix),
            op.delimiter() == optional_text(delimiter),
    {
        HexEncode { format, prefix, delimiter }
    }
}

} // verus!
