//! The closed enumeration of supported shell dialects, with alias
//! parsing and the canonical display name of each member.
use vstd::prelude::*;

use crate::chars::str_eq;

verus! {

/// A supported shell dialect. Constructed by parsing a canonical
/// lowercase name or one of its recognised aliases.
#[derive(Clone, Copy, Debug, PartialEq, Eq, Structural)]
pub enum ShellKind {
    Bash,
    Zsh,
    Fish,
    PowerShell,
    Nushell,
    Xonsh,
    Ksh,
    Sh,
}

/// Which dialect a name denotes: the canonical name or any accepted
/// alias maps to its member, anything else to `None`.
pub open spec fn parse_shell_spec(s: Seq<char>) -> Option<ShellKind> {
    if s == "bash"@ {
        Some(ShellKind::Bash)
    } else if s == "zsh"@ {
        Some(ShellKind::Zsh)
    } else if s == "fish"@ {
        Some(ShellKind::Fish)
    } else if s == "pwsh"@ || s == "powershell"@ {
        Some(ShellKind::PowerShell)
    } else if s == "nu"@ || s == "nushell"@ {
        Some(ShellKind::Nushell)
    } else if s == "xonsh"@ {
        Some(ShellKind::Xonsh)
    } else if s == "ksh"@ {
        Some(ShellKind::Ksh)
    } else if s == "sh"@ {
        Some(ShellKind::Sh)
    } else {
        None
    }
}

/// The one canonical display name of each member.
pub open spec fn shell_name_spec(k: ShellKind) -> Seq<char> {
    match k {
        ShellKind::Bash => "bash"@,
        ShellKind::Zsh => "zsh"@,
        ShellKind::Fish => "fish"@,
        ShellKind::PowerShell => "powershell"@,
        ShellKind::Nushell => "nushell"@,
        ShellKind::Xonsh => "xonsh"@,
        ShellKind::Ksh => "ksh"@,
        ShellKind::Sh => "sh"@,
    }
}

/// Parses a shell name or alias.
pub fn parse_shell(s: &str) -> (r: Option<ShellKind>)
    ensures
        r == parse_shell_spec(s@),
{
    if str_eq(s, "bash") {
        Some(ShellKind::Bash)
    } else if str_eq(s, "zsh") {
        Some(ShellKind::Zsh)
    } else if str_eq(s, "fish") {
        Some(ShellKind::Fish)
    } else if str_eq(s, "pwsh") || str_eq(s, "powershell") {
        Some(ShellKind::PowerShell)
    } else if str_eq(s, "nu") || str_eq(s, "nushell") {
        Some(ShellKind::Nushell)
    } else if str_eq(s, "xonsh") {
        Some(ShellKind::Xonsh)
    } else if str_eq(s, "ksh") {
        Some(ShellKind::Ksh)
    } else if str_eq(s, "sh") {
        Some(ShellKind::Sh)
    } else {
        None
    }
}

/// The canonical display name of a dialect.
pub fn shell_name(k: ShellKind) -> (r: String)
    ensures
        r@ == shell_name_spec(k),
{
    match k {
        ShellKind::Bash => String::from_str("bash"),
        ShellKind::Zsh => String::from_str("zsh"),
        ShellKind::Fish => String::from_str("fish"),
        ShellKind::PowerShell => String::from_str("powershell"),
        ShellKind::Nushell => String::from_str("nushell"),
        ShellKind::Xonsh => String::from_str("xonsh"),
        ShellKind::Ksh => String::from_str("ksh"),
        ShellKind::Sh => String::from_str("sh"),
    }
}

/// The display name of every member parses back to that same member:
/// alias parsing and display form a round trip at the dialect level.
pub proof fn lemma_name_parse_round_trip(k: ShellKind)
    ensures
        parse_shell_spec(shell_name_spec(k)) == Some(k),
{
    reveal_strlit("bash");
    reveal_strlit("zsh");
    reveal_strlit("fish");
    reveal_strlit("pwsh");
    reveal_strlit("powershell");
    reveal_strlit("nu");
    reveal_strlit("nushell");
    reveal_strlit("xonsh");
    reveal_strlit("ksh");
    reveal_strlit("sh");
    assert("bash"@.len() == 4 && "zsh"@.len() == 3 && "fish"@.len() == 4 && "pwsh"@.len() == 4
        && "powershell"@.len() == 10 && "nu"@.len() == 2 && "nushell"@.len() == 7
        && "xonsh"@.len() == 5 && "ksh"@.len() == 3 && "sh"@.len() == 2);
    assert("bash"@[0] == 'b');
    assert("fish"@[0] == 'f');
    assert("pwsh"@[0] == 'p');
    assert("pwsh"@[1] == 'w');
    assert("powershell"@[1] == 'o');
    assert("zsh"@[0] == 'z');
    assert("ksh"@[0] == 'k');
    assert("sh"@[0] == 's');
    assert("nu"@[0] == 'n');
}

/// Both accepted names of the PowerShell family parse to the same
/// member, and that member's display name parses back to it.
pub proof fn lemma_powershell_aliases()
    ensures
        parse_shell_spec("pwsh"@) == Some(ShellKind::PowerShell),
        parse_shell_spec("powershell"@) == Some(ShellKind::PowerShell),
        parse_shell_spec("pwsh"@) == parse_shell_spec("powershell"@),
        parse_shell_spec(shell_name_spec(ShellKind::PowerShell)) == Some(ShellKind::PowerShell),
{
    reveal_strlit("bash");
    reveal_strlit("zsh");
    reveal_strlit("fish");
    reveal_strlit("pwsh");
    reveal_strlit("powershell");
    assert("bash"@.len() == 4 && "zsh"@.len() == 3 && "fish"@.len() == 4 && "pwsh"@.len() == 4
        && "powershell"@.len() == 10);
    assert("pwsh"@[0] == 'p');
    assert("bash"@[0] == 'b');
    assert("fish"@[0] == 'f');
}

} // verus!
