use crate::text::optional_text;
use vstd::prelude::*;

verus! {

/// Server-sent events data message containing a `data` field and optional `id` and `event`
/// fields.
#[must_use]
#[derive(Debug, Clone)]
pub struct Data {
    pub id: Option<String>,
    pub event: Option<String>,
    pub data: String,
}

/// What a [`Data`] holds, as mathematical values.
pub struct DataView {
    pub id: Option<Seq<char>>,
    pub event: Option<Seq<char>>,
    pub data: Seq<char>,
}

impl View for Data {
    type V = DataView;

    open spec fn view(&self) -> DataView {
        DataView { id: optional_text(self.id), event: optional_text(self.event), data: self.data@ }
    }
}

impl Data {
    /// Constructs a new SSE data message with just the `data` field.
    pub fn new(data: String) -> (message: Self)
        ensures
            message@ == (DataView { id: None, event: None, data: data@ }),
    {
        Data { id: None, event: None, data }
    }

    /// Sets `id` field, returning a new data message.
    pub fn id(self, id: String) -> (message: Self)
        ensures
            message@ == (DataView { id: Some(id@), ..self@ }),
    {
        let mut message = self;
        message.id = Some(id);
        message
    }

    /// Sets `event` name field, returning a new data message.
    pub fn event(self, event: String) -> (message: Self)
        ensures
            message@ == (DataView { event: Some(event@), ..self@ }),
    {
        let mut message = self;
        message.event = Some(event);
        message
    }
}

} // verus!
