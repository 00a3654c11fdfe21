//! The shells for which a completion script can be written.

use vstd::prelude::*;

verus! {

/// A shell with a completion script of its own.
#[derive(Clone, Copy, Debug, PartialEq, Eq, Structural)]
pub enum ShellKind {
    Bash,
    Fish,
    Zsh,
    PowerShell,
    Elvish,
}

/// `text` with every letter in lower case, as `str::to_lowercase` gives it.
pub uninterp spec fn lowercase(text: Seq<char>) -> Seq<char>;

/// Trusted: calls `str::to_lowercase`, whose result follows from the text
/// alone (Unicode's case mapping; no locale is consulted).
#[verifier::external_body]
fn lowered(text: &str) -> (low: String)
    ensures
        low@ == lowercase(text@),
{
    text.to_lowercase()
}

/// The shell that goes by the lower-case name `name`. What is none of the
/// other four is taken for Bash.
pub open spec fn shell_of(name: Seq<char>) -> ShellKind {
    if name == "fish"@ {
        ShellKind::Fish
    } else if name == "zsh"@ {
        ShellKind::Zsh
    } else if name == "powershell"@ {
        ShellKind::PowerShell
    } else if name == "elvish"@ {
        ShellKind::Elvish
    } else {
        ShellKind::Bash
    }
}

/// The shell that goes by `name`, whatever the case of its letters.
pub fn shell_named(name: &str) -> (kind: ShellKind)
    ensures
        kind == shell_of(lowercase(name@)),
{
    let low = lowered(name);
    if low == "fish".to_owned() {
        ShellKind::Fish
    } else if low == "zsh".to_owned() {
        ShellKind::Zsh
    } else if low == "powershell".to_owned() {
        ShellKind::PowerShell
    } else if low == "elvish".to_owned() {
        ShellKind::Elvish
    } else {
        ShellKind::Bash
    }
}

} // verus!
