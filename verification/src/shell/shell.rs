use vstd::prelude::*;

verus! {

/// A shell that scripts can be run through.
#[derive(Debug, Clone, Copy, PartialEq, Eq, Structural)]
pub enum Shell {
    Sh,
    PowerShell,
}

impl Shell {
    /// The program that runs the shell.
    pub open spec fn binary_name(self) -> Seq<char> {
        match self {
            Shell::Sh => "sh"@,
            Shell::PowerShell => "powershell.exe"@,
        }
    }

    /// The arguments with which the shell reads its script from standard input.
    pub open spec fn arguments(self) -> Seq<Seq<char>> {
        match self {
            Shell::Sh => seq!["-s"@],
            Shell::PowerShell => seq!["-ExecutionPolicy"@, "Bypass"@, "-Command"@, "-"@],
        }
    }

    /// The shell of a platform: PowerShell on Windows, `sh` everywhere else.
    pub fn for_platform(windows: bool) -> (shell: Self)
        ensures
            shell == if windows { Shell::PowerShell } else { Shell::Sh },
    {
        if windows {
            Shell::PowerShell
        } else {
            Shell::Sh
        }
    }

    pub fn binary(&self) -> (binary: &'static str)
        ensures
            binary@ == self.binary_name(),
    {
        match self {
            Shell::Sh => "sh",
            Shell::PowerShell => "powershell.exe",
        }
    }

    pub fn args(&self) -> (args: Vec<&'static str>)
        ensures
            args@.len() == self.arguments().len(),
            forall|i: int| 0 <= i < args@.len() ==> args@[i]@ == self.arguments()[i],
    {
        match self {
            Shell::Sh => vec!["-s"],
            Shell::PowerShell => vec!["-ExecutionPolicy", "Bypass", "-Command", "-"],
        }
    }
}

} // verus!
