use vstd::prelude::*;

verus! {

/// A script: the bytes that are written to the shell's standard input.
#[derive(Debug, Clone)]
pub struct Script {
    content: Vec<u8>,
}

impl View for Script {
    type V = Seq<u8>;

    closed spec fn view(&self) -> Seq<u8> {
        self.content@
    }
}

impl Script {
    pub fn new(content: Vec<u8>) -> (script: Self)
        ensures
            script@ == content@,
    {
        Script { content }
    }

    pub fn content(&self) -> (content: &[u8])
        ensures
            content@ == self@,
    {
        self.content.as_slice()
    }
}

} // verus!
