use vstd::prelude::*;

verus! {

/// Why the operating system could not be identified.
#[derive(Debug)]
pub enum Error {
    /// A system call failed; the text names it.
    SystemCall(String),
    /// What the system reported could not be read; the text says why.
    ParseError(String),
    /// The system refused an operation; the text is the system's message.
    Io(String),
}

impl Error {
    /// The error's message.
    pub open spec fn message(self) -> Seq<char> {
        match self {
            Error::SystemCall(text) => "System call failed: "@ + text@,
            Error::ParseError(text) => "Failed to parse OS information: "@ + text@,
            Error::Io(text) => "IO error: "@ + text@,
        }
    }

    /// The error's message.
    pub fn to_string(&self) -> (text: String)
        ensures
            text@ == self.message(),
    {
        match self {
            Error::SystemCall(text) => "System call failed: ".to_string().concat(text.as_str()),
            Error::ParseError(text) => "Failed to parse OS information: ".to_string().concat(
                text.as_str(),
            ),
            Error::Io(text) => "IO error: ".to_string().concat(text.as_str()),
        }
    }
}

} // verus!
