use cdw::templates::{
    autocomplete_file_path, cdw_config_dir, config_file_suffix, function_file_path,
    get_autocomplete_script, get_shell_config_file, get_shell_function, get_source_line,
    user_source_line,
};

#[test]
fn fish_wrapper_is_selected() {
    let f = get_shell_function("fish");
    assert!(f.contains("function cdw"));
    assert!(f.contains("string sub -s 4"));
}

#[test]
fn posix_shells_share_one_wrapper() {
    let zsh = get_shell_function("zsh");
    assert_eq!(zsh, get_shell_function("bash"));
    assert_eq!(zsh, get_shell_function("sh"));
    assert_eq!(zsh, get_shell_function("ksh"));
    assert!(zsh.contains("cdw() {"));
}

#[test]
fn powershell_aliases_select_one_wrapper() {
    assert!(get_shell_function("pwsh").contains("Set-Location"));
    assert_eq!(get_shell_function("powershell"), get_shell_function("pwsh"));
    assert_eq!(get_autocomplete_script("powershell"), get_autocomplete_script("pwsh"));
}

#[test]
fn nushell_aliases_select_one_wrapper() {
    assert!(get_shell_function("nu").contains("def --wrapped --env cdw"));
    assert_eq!(get_shell_function("nu"), get_shell_function("nushell"));
    assert_eq!(get_autocomplete_script("nu"), get_autocomplete_script("nushell"));
}

#[test]
fn unknown_shell_gets_marker_comment() {
    assert_eq!(get_shell_function("tcsh"), "# Unsupported shell\n");
}

#[test]
fn nushell_wrapper_and_completion_are_selected() {
    assert!(get_shell_function("nushell").contains("def --wrapped --env cdw"));
    let ac = get_autocomplete_script("nushell");
    assert!(ac.contains("nu-complete cdw"));
    assert!(ac.contains("cdw [...args: string@'cdw completions']"));
}

#[test]
fn completion_scripts_match_their_shells() {
    assert!(get_autocomplete_script("zsh").contains("#compdef cdw"));
    assert!(get_autocomplete_script("bash").contains("_cdw_autocomplete"));
    assert!(get_autocomplete_script("fish").contains("__fish_complete_path"));
    assert!(get_autocomplete_script("pwsh").contains("Register-ArgumentCompleter"));
    assert!(get_autocomplete_script("xonsh").contains("_cdw_completer"));
    assert_eq!(
        get_autocomplete_script("ksh"),
        "# Autocomplete not supported for this shell\n"
    );
}

#[test]
fn config_files_live_under_home() {
    assert_eq!(get_shell_config_file("zsh", "/home/u"), "/home/u/.zshrc");
    assert_eq!(get_shell_config_file("bash", "/home/u"), "/home/u/.bashrc");
    assert_eq!(get_shell_config_file("ksh", "/home/u"), "/home/u/.kshrc");
    assert_eq!(get_shell_config_file("xonsh", "/home/u"), "/home/u/.xonshrc");
    assert_eq!(
        get_shell_config_file("fish", "/home/u"),
        "/home/u/.config/fish/config.fish"
    );
    assert_eq!(
        get_shell_config_file("nushell", "/home/u"),
        "/home/u/.config/nushell/config.nu"
    );
    assert_eq!(
        get_shell_config_file("pwsh", "/home/u"),
        "/home/u/.config/powershell/Microsoft.PowerShell_profile.ps1"
    );
    assert_eq!(get_shell_config_file("sh", "/home/u"), "/home/u/.profile");
    assert_eq!(get_shell_config_file("what", "/home/u"), "/home/u/.profile");
    assert_eq!(
        get_shell_config_file("powershell", "/home/u"),
        "/home/u/.config/powershell/Microsoft.PowerShell_profile.ps1"
    );
    assert_eq!(
        get_shell_config_file("nu", "/home/u"),
        "/home/u/.config/nushell/config.nu"
    );
}

#[test]
fn source_lines_follow_dialect() {
    assert_eq!(
        get_source_line("fish", "/f/fn.fish", "/f/ac.fish"),
        "source /f/fn.fish; source /f/ac.fish"
    );
    assert_eq!(get_source_line("nushell", "/f/fn.nu", "/f/ac.nu"), "source /f/fn.nu");
    assert_eq!(get_source_line("pwsh", "/f/fn.ps1", "/f/ac.ps1"), ". /f/fn.ps1");
    assert_eq!(get_source_line("bash", "/f/fn.bash", "/f/ac.bash"), ". /f/fn.bash");
    assert_eq!(get_source_line("nu", "/f/fn.nu", "/f/ac.nu"), "source /f/fn.nu");
    assert_eq!(get_source_line("powershell", "/f/fn.ps1", "/f/ac.ps1"), ". /f/fn.ps1");
    assert_eq!(get_source_line("tcsh", "/f/fn.tcsh", "/f/ac.tcsh"), ". /f/fn.tcsh");
}

#[test]
fn user_source_line_names_the_config_file() {
    assert_eq!(user_source_line("zsh", "/home/u"), "source /home/u/.zshrc");
}

#[test]
fn wrapper_file_names_use_dialect_suffix() {
    assert_eq!(config_file_suffix("nushell"), "nu");
    assert_eq!(config_file_suffix("nu"), "nu");
    assert_eq!(config_file_suffix("pwsh"), "ps1");
    assert_eq!(config_file_suffix("powershell"), "ps1");
    assert_eq!(config_file_suffix("bash"), "bash");
    assert_eq!(config_file_suffix("tcsh"), "tcsh");
    let dir = cdw_config_dir("/home/u");
    assert_eq!(dir, "/home/u/.config/cdw");
    assert_eq!(function_file_path(&dir, "nu"), "/home/u/.config/cdw/function.nu");
    assert_eq!(
        autocomplete_file_path(&dir, "ps1"),
        "/home/u/.config/cdw/autocomplete.ps1"
    );
}
