use cdw::detect::{available_shells, detect_shell, ps_comm_query, ps_ppid_query};
use cdw::detect::{DetectInput, ProbeResults};
use cdw::shell::ShellKind;

fn no_markers() -> DetectInput {
    DetectInput {
        ps_module_path: None,
        ancestor_name: None,
        xonsh_version: false,
        nu_version: false,
        fish_version: false,
        zsh_version: false,
        bash_version: false,
    }
}

fn no_probes() -> ProbeResults {
    ProbeResults {
        bash: false,
        zsh: false,
        fish: false,
        pwsh: false,
        nu: false,
        xonsh: false,
        ksh: false,
        sh_echo: None,
    }
}

#[test]
fn powershell_marker_wins() {
    let mut inp = no_markers();
    inp.ps_module_path = Some(String::from(
        "C:\\Program Files\\PowerShell\\7\\Modules",
    ));
    inp.ancestor_name = Some(String::from("zsh"));
    inp.bash_version = true;
    assert_eq!(detect_shell(&inp), "pwsh");
}

#[test]
fn module_path_without_powershell_does_not_match() {
    let mut inp = no_markers();
    inp.ps_module_path = Some(String::from("/usr/share/modules"));
    assert_eq!(detect_shell(&inp), "sh");
}

#[test]
fn ancestor_name_beats_version_markers() {
    let mut inp = no_markers();
    inp.ancestor_name = Some(String::from("fish"));
    inp.zsh_version = true;
    assert_eq!(detect_shell(&inp), "fish");
}

#[test]
fn ancestor_alias_reports_canonical_name() {
    let mut inp = no_markers();
    inp.ancestor_name = Some(String::from("pwsh"));
    assert_eq!(detect_shell(&inp), "powershell");
}

#[test]
fn unparsable_ancestor_falls_through() {
    let mut inp = no_markers();
    inp.ancestor_name = Some(String::from("python3"));
    inp.nu_version = true;
    assert_eq!(detect_shell(&inp), "nu");
}

#[test]
fn version_markers_follow_fixed_order() {
    let mut inp = no_markers();
    inp.xonsh_version = true;
    inp.nu_version = true;
    inp.fish_version = true;
    inp.zsh_version = true;
    inp.bash_version = true;
    assert_eq!(detect_shell(&inp), "xonsh");
    inp.xonsh_version = false;
    assert_eq!(detect_shell(&inp), "nu");
    inp.nu_version = false;
    assert_eq!(detect_shell(&inp), "fish");
    inp.fish_version = false;
    assert_eq!(detect_shell(&inp), "zsh");
    inp.zsh_version = false;
    assert_eq!(detect_shell(&inp), "bash");
}

#[test]
fn everything_absent_falls_back_to_sh() {
    assert_eq!(detect_shell(&no_markers()), "sh");
}

#[test]
fn no_probe_no_shell() {
    assert!(available_shells(&no_probes()).is_empty());
}

#[test]
fn only_successful_probes_are_listed() {
    let mut p = no_probes();
    p.bash = true;
    p.ksh = true;
    p.sh_echo = Some(String::from("1\n"));
    assert_eq!(
        available_shells(&p),
        vec![ShellKind::Bash, ShellKind::Ksh, ShellKind::Sh]
    );
}

#[test]
fn sh_probe_needs_exact_echo() {
    let mut p = no_probes();
    p.sh_echo = Some(String::from("2\n"));
    assert!(available_shells(&p).is_empty());
    p.sh_echo = Some(String::from("  1  \n"));
    assert_eq!(available_shells(&p), vec![ShellKind::Sh]);
}

#[test]
fn enumeration_keeps_probe_order() {
    let mut p = no_probes();
    p.zsh = true;
    p.fish = true;
    p.pwsh = true;
    p.nu = true;
    p.xonsh = true;
    assert_eq!(
        available_shells(&p),
        vec![
            ShellKind::Zsh,
            ShellKind::Fish,
            ShellKind::PowerShell,
            ShellKind::Nushell,
            ShellKind::Xonsh,
        ]
    );
}

#[test]
fn ancestry_queries_have_exact_form() {
    assert_eq!(ps_ppid_query("$$"), "ps -p $$ -o ppid=");
    assert_eq!(ps_ppid_query("1234"), "ps -p 1234 -o ppid=");
    assert_eq!(ps_comm_query("987"), "ps -p 987 -o comm=");
}
