use crate::buffer::bytes_from_vec;
use crate::buffer::frozen;
use crate::buffer::held;
use crate::buffer::put_slice;
use crate::buffer::put_u8;
use crate::encore::hexcodec::replaced;
use crate::sse::data::Data;
use crate::sse::data::DataView;
use crate::text::decimal_text;
use crate::text::optional_text;
use crate::text::push_decimal;
use bytes::Bytes;
use bytes::BytesMut;
use vstd::prelude::*;
use vstd::slice::slice_subrange;
use vstd::string::StringSliceAdditionalSpecFns;
use vstd::utf8::encode_utf8;

verus! {

/// Server-sent events message containing one or more fields.
#[must_use]
#[derive(Debug, Clone)]
pub enum Event {
    /// A `data` message with optional ID and event name.
    Data(Data),
    /// A comment message.
    Comment(String),
}

/// What an [`Event`] holds, as mathematical values.
pub enum EventView {
    Data(DataView),
    Comment(Seq<char>),
}

impl View for Event {
    type V = EventView;

    open spec fn view(&self) -> EventView {
        match self {
            Event::Data(data) => EventView::Data(data@),
            Event::Comment(text) => EventView::Comment(text@),
        }
    }
}

/// The line feed that ends a line.
pub const LINE_FEED: u8 = 10;

/// The data with the prefix before each of its lines and a line feed behind each: the
/// prefix, the data in which every line feed is followed by the prefix, and a line feed.
pub open spec fn prefixed_lines(prefix: Seq<u8>, data: Seq<u8>) -> Seq<u8> {
    prefix + replaced(data, seq![LINE_FEED], seq![LINE_FEED] + prefix) + seq![LINE_FEED]
}

/// A field that is written only where it is set: its name, its value, and a line feed.
pub open spec fn optional_field(name: Seq<char>, value: Option<Seq<char>>) -> Seq<u8> {
    match value {
        Some(v) => encode_utf8(name) + encode_utf8(v) + seq![LINE_FEED],
        None => Seq::empty(),
    }
}

/// A message in event-stream format. It ends with an empty line.
pub open spec fn event_wire(event: EventView) -> Seq<u8> {
    match event {
        EventView::Data(data) => optional_field("id: "@, data.id) + optional_field(
            "event: "@,
            data.event,
        ) + prefixed_lines(encode_utf8("data: "@), encode_utf8(data.data)) + seq![LINE_FEED],
        EventView::Comment(text) => prefixed_lines(encode_utf8(": "@), encode_utf8(text)) + seq![
            LINE_FEED,
        ],
    }
}

/// The message that tells the client how long to wait before it connects again.
pub open spec fn retry_wire(retry_millis: nat) -> Seq<u8> {
    encode_utf8("retry: "@) + decimal_text(retry_millis) + seq![LINE_FEED, LINE_FEED]
}

/// The comment message that keeps an idle connection alive.
pub open spec fn keep_alive_wire() -> Seq<u8> {
    encode_utf8(": keep-alive\n\n"@)
}

/// The largest number of bytes that a buffer can grow by for one set of prefixed lines.
pub open spec fn prefixed_lines_bound(prefix: Seq<u8>, data: Seq<u8>) -> nat {
    (prefix.len() + 1) * (data.len() + 1)
}

/// Every line of the data takes at most one prefix and one line feed beside its own bytes.
pub proof fn lemma_replaced_line_bound(prefix: Seq<u8>, data: Seq<u8>)
    ensures
        replaced(data, seq![LINE_FEED], seq![LINE_FEED] + prefix).len() <= (prefix.len() + 1)
            * data.len(),
    decreases data.len(),
{
    let needle = seq![LINE_FEED];
    let with = seq![LINE_FEED] + prefix;
    if data.len() >= 1 {
        lemma_replaced_line_bound(prefix, data.skip(1));
        assert(data.skip(needle.len() as int) == data.skip(1));
        assert((prefix.len() + 1) * data.len() == (prefix.len() + 1) * (data.len() - 1) + (
        prefix.len() + 1)) by (nonlinear_arith);
    }
}

/// Prefixed lines take no more room than is reckoned for them.
pub proof fn lemma_prefixed_lines_fit(prefix: Seq<u8>, data: Seq<u8>)
    ensures
        prefixed_lines(prefix, data).len() <= prefixed_lines_bound(prefix, data),
{
    lemma_replaced_line_bound(prefix, data);
    assert(prefixed_lines_bound(prefix, data) == (prefix.len() + 1) * data.len() + prefix.len()
        + 1) by (nonlinear_arith);
}

/// Every message ends with an empty line: its last two bytes are line feeds.
pub proof fn message_ends_with_empty_line(event: EventView)
    ensures
        event_wire(event).len() >= 2,
        event_wire(event)[event_wire(event).len() - 1] == LINE_FEED,
        event_wire(event)[event_wire(event).len() - 2] == LINE_FEED,
{
}

/// The room that a buffer needs for a message, as reckoned before it is written: never less
/// than the message takes.
pub open spec fn event_room(event: EventView) -> nat {
    match event {
        EventView::Data(data) => optional_field("id: "@, data.id).len() + optional_field(
            "event: "@,
            data.event,
        ).len() + prefixed_lines_bound(encode_utf8("data: "@), encode_utf8(data.data)) + 1,
        EventView::Comment(text) => prefixed_lines_bound(encode_utf8(": "@), encode_utf8(text))
            + 1,
    }
}

/// Appends a field that is set, and nothing for one that is not.
fn put_optional_field(buf: &mut BytesMut, name: &str, value: &Option<String>)
    requires
        held(*old(buf)).len() + optional_field(name@, optional_text(*value)).len()
            <= isize::MAX,
    ensures
        held(*final(buf)) == held(*old(buf)) + optional_field(
            name@,
            optional_text(*value),
        ),
{
    if let Some(text) = value {
        put_slice(buf, name.as_bytes());
        put_slice(buf, text.as_str().as_bytes());
        put_u8(buf, LINE_FEED);
    }
}

/// Makes room ahead of writing lines, where the guess for it is small enough to be asked
/// for: the length of the data, ten lines' worth of prefix and line feed, and an end of file.
fn reserve_for_lines(buf: &mut BytesMut, prefix: &[u8], data: &[u8])
    ensures
        held(*final(buf)) == held(*old(buf)),
{
    let guess: u128 = data.len() as u128 + 10 * (prefix.len() as u128 + 1) + 1;
    if buf.len() as u128 + guess <= isize::MAX as u128 {
        buf.reserve(guess as usize);
    }
}

impl Event {
    /// Splits data into lines and prepend each line with `prefix`.
    pub fn line_split_with_prefix(buf: &mut BytesMut, prefix: &str, data: &str)
        requires
            held(*old(buf)).len() + prefixed_lines_bound(prefix.spec_bytes(), data.spec_bytes())
                <= isize::MAX,
        ensures
            held(*final(buf)) == held(*old(buf)) + prefixed_lines(
                prefix.spec_bytes(),
                data.spec_bytes(),
            ),
    {
        let prefix = prefix.as_bytes();
        let data = data.as_bytes();
        let ghost needle = seq![LINE_FEED];
        let ghost with = seq![LINE_FEED] + prefix@;
        let ghost goal = held(*old(buf)) + prefix@ + replaced(data@, needle, with);
        let ghost room = held(*old(buf)).len() + prefixed_lines_bound(prefix@, data@);
        proof {
            assert(prefixed_lines_bound(prefix@, data@) == (prefix@.len() + 1) * data@.len()
                + prefix@.len() + 1) by (nonlinear_arith);
            lemma_replaced_line_bound(prefix@, data@);
        }
        reserve_for_lines(buf, prefix, data);
        put_slice(buf, prefix);
        let mut start: usize = 0;
        let mut i: usize = 0;
        assert(data@.skip(0) == data@);
        while i < data.len()
            invariant
                start <= i <= data@.len(),
                needle == seq![LINE_FEED],
                with == seq![LINE_FEED] + prefix@,
                goal == held(*buf) + data@.subrange(start as int, i as int) + replaced(
                    data@.skip(i as int),
                    needle,
                    with,
                ),
                goal.len() + 1 <= room <= isize::MAX,
            decreases data.len() - i,
        {
            proof {
                let rest = data@.skip(i as int);
                assert(rest.skip(needle.len() as int) == data@.skip(i + 1));
                assert(rest.skip(1) == data@.skip(i + 1));
                assert(rest.take(1) == seq![data@[i as int]]);
                assert((rest.take(1) == needle) == (data@[i as int] == LINE_FEED)) by {
                    if data@[i as int] == LINE_FEED {
                        assert(rest.take(1) =~= needle);
                    } else {
                        assert(rest.take(1)[0] != needle[0]);
                    }
                }
                assert(data@.subrange(start as int, i + 1) == data@.subrange(
                    start as int,
                    i as int,
                ).push(data@[i as int]));
            }
            if data[i] == LINE_FEED {
                put_slice(buf, slice_subrange(data, start, i));
                put_u8(buf, LINE_FEED);
                put_slice(buf, prefix);
                start = i + 1;
                assert(data@.subrange(start as int, i + 1) == Seq::<u8>::empty());
            }
            i += 1;
        }
        proof {
            assert(replaced(data@.skip(i as int), needle, with) == Seq::<u8>::empty());
        }
        put_slice(buf, slice_subrange(data, start, i));
        put_u8(buf, LINE_FEED);
    }

    /// Splits data into lines and prepends each line with `prefix`, where the buffer can
    /// take them; tells whether it did. A buffer that cannot take them stays as it is.
    pub fn try_line_split_with_prefix(buf: &mut BytesMut, prefix: &str, data: &str) -> (done: bool)
        ensures
            done == (held(*old(buf)).len() + prefixed_lines_bound(
                prefix.spec_bytes(),
                data.spec_bytes(),
            ) <= isize::MAX),
            done ==> held(*final(buf)) == held(*old(buf)) + prefixed_lines(
                prefix.spec_bytes(),
                data.spec_bytes(),
            ),
            !done ==> held(*final(buf)) == held(*old(buf)),
    {
        let limit: u128 = isize::MAX as u128;
        let per_line: u128 = prefix.as_bytes().len() as u128 + 1;
        let lines: u128 = data.as_bytes().len() as u128 + 1;
        if per_line > limit || lines > limit {
            assert(per_line * lines > limit) by (nonlinear_arith)
                requires
                    per_line > limit || lines > limit,
                    per_line >= 1,
                    lines >= 1,
            ;
            return false;
        }
        assert(per_line * lines <= 0x4000_0000_0000_0000_0000_0000_0000_0000) by (nonlinear_arith)
            requires
                per_line <= 0x8000_0000_0000_0000,
                lines <= 0x8000_0000_0000_0000,
        ;
        let product: u128 = per_line * lines;
        if buf.len() as u128 + product <= limit {
            Self::line_split_with_prefix(buf, prefix, data);
            true
        } else {
            false
        }
    }

    /// Tells whether the message is small enough to be written into one buffer.
    pub fn fits(&self) -> (b: bool)
        ensures
            b == (event_room(self@) <= isize::MAX),
    {
        let fields: u128 = match self {
            Event::Data(data) => Self::field_len("id: ", &data.id) + Self::field_len(
                "event: ",
                &data.event,
            ),
            Event::Comment(_) => 0,
        };
        let prefix_len: usize = match self {
            Event::Data(_) => "data: ".as_bytes().len(),
            Event::Comment(_) => ": ".as_bytes().len(),
        };
        let data_len: usize = match self {
            Event::Data(data) => data.data.as_str().as_bytes().len(),
            Event::Comment(text) => text.as_str().as_bytes().len(),
        };
        let limit: u128 = isize::MAX as u128;
        let per_line: u128 = prefix_len as u128 + 1;
        let lines: u128 = data_len as u128 + 1;
        if per_line > limit || lines > limit {
            assert(per_line * lines > limit) by (nonlinear_arith)
                requires
                    per_line > limit || lines > limit,
                    per_line >= 1,
                    lines >= 1,
            ;
            return false;
        }
        assert(per_line * lines <= 0x4000_0000_0000_0000_0000_0000_0000_0000) by (nonlinear_arith)
            requires
                per_line <= 0x8000_0000_0000_0000,
                lines <= 0x8000_0000_0000_0000,
        ;
        let product: u128 = per_line * lines;
        fields + product + 1 <= limit
    }

    /// The length of a field that is written only where it is set.
    fn field_len(name: &str, value: &Option<String>) -> (n: u128)
        ensures
            n == optional_field(name@, optional_text(*value)).len(),
            n <= 2 * usize::MAX + 1,
    {
        match value {
            Some(text) => name.as_bytes().len() as u128 + text.as_str().as_bytes().len() as u128 + 1,
            None => 0,
        }
    }

    /// Serializes message into event-stream format, where it is small enough for that.
    pub fn try_into_bytes(self) -> (bytes: Option<Bytes>)
        ensures
            match bytes {
                Some(b) => event_room(self@) <= isize::MAX && frozen(b) == event_wire(self@),
                None => event_room(self@) > isize::MAX,
            },
    {
        if self.fits() {
            Some(self.into_bytes())
        } else {
            None
        }
    }

    /// Serializes message into event-stream format.
    pub fn into_bytes(self) -> (bytes: Bytes)
        requires
            event_room(self@) <= isize::MAX,
        ensures
            frozen(bytes) == event_wire(self@),
    {
        let mut buf = BytesMut::new();
        let ghost view = self@;
        match self {
            Event::Data(Data { id, event, data }) => {
                put_optional_field(&mut buf, "id: ", &id);
                put_optional_field(&mut buf, "event: ", &event);
                Self::line_split_with_prefix(&mut buf, "data: ", data.as_str());
            },
            Event::Comment(text) => {
                Self::line_split_with_prefix(&mut buf, ": ", text.as_str());
            },
        }
        proof {
            match view {
                EventView::Data(data) => {
                    lemma_prefixed_lines_fit(encode_utf8("data: "@), encode_utf8(data.data));
                },
                EventView::Comment(text) => {
                    lemma_prefixed_lines_fit(encode_utf8(": "@), encode_utf8(text));
                },
            }
        }
        put_u8(&mut buf, LINE_FEED);
        buf.freeze()
    }

    /// Serializes retry message into event-stream format.
    pub fn retry_to_bytes(retry_millis: u128) -> (bytes: Bytes)
        ensures
            frozen(bytes) == retry_wire(retry_millis as nat),
    {
        let mut text: Vec<u8> = Vec::new();
        text.extend_from_slice("retry: ".as_bytes());
        push_decimal(&mut text, retry_millis);
        text.push(LINE_FEED);
        text.push(LINE_FEED);
        assert(text@ =~= retry_wire(retry_millis as nat));
        bytes_from_vec(text)
    }

    /// Serializes a keep-alive event-stream comment message into bytes.
    pub fn keep_alive_bytes() -> (bytes: Bytes)
        ensures
            frozen(bytes) == keep_alive_wire(),
    {
        let mut text: Vec<u8> = Vec::new();
        text.extend_from_slice(": keep-alive\n\n".as_bytes());
        bytes_from_vec(text)
    }

    /// Wraps a data message as an event.
    pub fn from(data: Data) -> (event: Event)
        ensures
            event@ == EventView::Data(data@),
    {
        Event::Data(data)
    }
}

} // verus!
