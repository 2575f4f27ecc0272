//! Which shell the command line completions are written for.

use vstd::prelude::*;
use crate::text::{file_name, file_name_of, lowercase, lowercase_of, same_text};

verus! {

/// A shell that completions can be written for.
#[derive(Clone, Copy, Debug, PartialEq, Eq, Structural)]
pub enum CompletionShell {
    Bash,
    Fish,
    Zsh,
    PowerShell,
    Elvish,
}

/// The path of the shell where the environment names none.
pub open spec fn default_shell_path() -> Seq<char> {
    "/bin/bash"@
}

/// The shell's name as [`shell`] finds it: the last component of the
/// shell's path, and `bash` where the path has none.
pub open spec fn shell_name(configured: Option<Seq<char>>) -> Seq<char> {
    let path = match configured {
        Some(path) => path,
        None => default_shell_path(),
    };
    match file_name_of(path) {
        Some(name) => name,
        None => "bash"@,
    }
}

/// The name of the user's shell. `configured` is what the environment holds
/// under `SHELL`, if anything; without it the shell is taken to be
/// `/bin/bash`. The name is the last component of that path.
pub fn shell(configured: Option<String>) -> (r: String)
    ensures
        r@ == shell_name(
            match configured {
                Some(path) => Some(path@),
                None => None,
            },
        ),
{
    let path = match configured {
        Some(path) => path,
        None => "/bin/bash".to_owned(),
    };
    match file_name(path.as_str()) {
        Some(name) => name,
        None => "bash".to_owned(),
    }
}

impl CompletionShell {
    /// The shell that a name in lower case stands for. Any name but those of
    /// fish, zsh, powershell and elvish stands for bash.
    pub open spec fn spec_of_lowercase(lower: Seq<char>) -> CompletionShell {
        if lower == "fish"@ {
            CompletionShell::Fish
        } else if lower == "zsh"@ {
            CompletionShell::Zsh
        } else if lower == "powershell"@ {
            CompletionShell::PowerShell
        } else if lower == "elvish"@ {
            CompletionShell::Elvish
        } else {
            CompletionShell::Bash
        }
    }

    /// The shell that a name in lower case stands for.
    pub fn of_lowercase(lower: &str) -> (r: CompletionShell)
        ensures
            r == Self::spec_of_lowercase(lower@),
    {
        if same_text(lower, "fish") {
            CompletionShell::Fish
        } else if same_text(lower, "zsh") {
            CompletionShell::Zsh
        } else if same_text(lower, "powershell") {
            CompletionShell::PowerShell
        } else if same_text(lower, "elvish") {
            CompletionShell::Elvish
        } else {
            CompletionShell::Bash
        }
    }

    /// The shell that a name stands for, whatever its case.
    pub fn parse(name: &str) -> (r: CompletionShell)
        ensures
            r == Self::spec_of_lowercase(lowercase_of(name@)),
    {
        let lower = lowercase(name);
        Self::of_lowercase(lower.as_str())
    }
}

} // verus!
