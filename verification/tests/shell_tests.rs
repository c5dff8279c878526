use cdw::shell::{parse_shell, shell_name, ShellKind};

#[test]
fn canonical_names_parse() {
    assert_eq!(parse_shell("bash"), Some(ShellKind::Bash));
    assert_eq!(parse_shell("zsh"), Some(ShellKind::Zsh));
    assert_eq!(parse_shell("fish"), Some(ShellKind::Fish));
    assert_eq!(parse_shell("powershell"), Some(ShellKind::PowerShell));
    assert_eq!(parse_shell("nushell"), Some(ShellKind::Nushell));
    assert_eq!(parse_shell("xonsh"), Some(ShellKind::Xonsh));
    assert_eq!(parse_shell("ksh"), Some(ShellKind::Ksh));
    assert_eq!(parse_shell("sh"), Some(ShellKind::Sh));
}

#[test]
fn aliases_agree_with_canonical_names() {
    assert_eq!(parse_shell("pwsh"), parse_shell("powershell"));
    assert_eq!(parse_shell("pwsh"), Some(ShellKind::PowerShell));
    assert_eq!(parse_shell("nu"), parse_shell("nushell"));
    assert_eq!(parse_shell("nu"), Some(ShellKind::Nushell));
}

#[test]
fn unknown_and_wrong_case_names_do_not_parse() {
    assert_eq!(parse_shell("python"), None);
    assert_eq!(parse_shell("Bash"), None);
    assert_eq!(parse_shell(""), None);
    assert_eq!(parse_shell("bash "), None);
}

#[test]
fn display_names_round_trip() {
    let kinds = [
        ShellKind::Bash,
        ShellKind::Zsh,
        ShellKind::Fish,
        ShellKind::PowerShell,
        ShellKind::Nushell,
        ShellKind::Xonsh,
        ShellKind::Ksh,
        ShellKind::Sh,
    ];
    for k in kinds {
        let name = shell_name(k);
        assert_eq!(parse_shell(&name), Some(k));
    }
}

#[test]
fn display_names_are_canonical() {
    assert_eq!(shell_name(ShellKind::PowerShell), "powershell");
    assert_eq!(shell_name(ShellKind::Nushell), "nushell");
    assert_eq!(shell_name(ShellKind::Bash), "bash");
}
