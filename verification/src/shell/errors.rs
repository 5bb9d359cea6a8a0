use vstd::prelude::*;

verus! {

/// Why a script could not be run.
#[derive(Debug)]
pub enum ShellError {
    /// The system refused an operation; the text is the system's message.
    Io(String),
    /// The process could not be run; the text says why.
    ExecutionFailed(String),
}

impl ShellError {
    /// The error's message.
    pub open spec fn message(self) -> Seq<char> {
        match self {
            ShellError::Io(text) => "IO error: "@ + text@,
            ShellError::ExecutionFailed(text) => "Process execution failed: "@ + text@,
        }
    }

    /// The error for an environment variable whose name the system cannot take.
    pub fn invalid_env_key(reason: &str) -> (e: ShellError)
        ensures
            e matches ShellError::ExecutionFailed(text) && text@ == "Invalid env key: "@ + reason@,
    {
        ShellError::ExecutionFailed("Invalid env key: ".to_string().concat(reason))
    }

    /// The error for an environment variable whose value the system cannot take.
    pub fn invalid_env_value(reason: &str) -> (e: ShellError)
        ensures
            e matches ShellError::ExecutionFailed(text) && text@ == "Invalid env value: "@
                + reason@,
    {
        ShellError::ExecutionFailed("Invalid env value: ".to_string().concat(reason))
    }

    /// The error for a shell process whose standard input could not be opened.
    pub fn stdin_unavailable() -> (e: ShellError)
        ensures
            e matches ShellError::ExecutionFailed(text) && text@
                == "Failed to open stdin for shell process"@,
    {
        ShellError::ExecutionFailed("Failed to open stdin for shell process".to_string())
    }

    /// The error's message.
    pub fn to_string(&self) -> (text: String)
        ensures
            text@ == self.message(),
    {
        match self {
            ShellError::Io(text) => "IO error: ".to_string().concat(text.as_str()),
            ShellError::ExecutionFailed(text) => "Process execution failed: ".to_string().concat(
                text.as_str(),
            ),
        }
    }
}

} // verus!
