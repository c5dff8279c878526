//! The per-dialect wrapper and completion templates, the startup-file
//! locations, and the source lines that install them. A name selects
//! by the dialect it parses to, so every accepted alias of a dialect
//! selects that dialect's files.
use vstd::prelude::*;

use crate::shell::{parse_shell, parse_shell_spec, shell_name, shell_name_spec, ShellKind};

verus! {

pub const FISH_FUNCTION: &'static str = r#"
function cdw
    set cmd_output (command cdw $argv | string escape)
    set exit_status $status
    if test $exit_status -eq 0
        if string match -q "\cg*" -- "$cmd_output"
            cd (string sub -s 4 -- "$cmd_output")
        else
            command cdw $argv
        end
    else
        command cdw $argv
        return $exit_status
    end
end

# Override the help function to preserve formatting
function __fish_cdw_help
    command cdw --help
end

# Set up completion to use the custom help function
complete -c cdw -f -a "(__fish_cdw_help | string match -r '^  [^ ].*')"   
"#;

pub const POSIX_FUNCTION: &'static str = r#"
cdw() {
    local cmd_output exit_status
    cmd_output=$(command cdw "$@")
    exit_status=$?
    if [ $exit_status -eq 0 ]; then
        first_char=$(echo -n "$cmd_output" | cut -c1)
        if [ "$(printf '%d' "'$first_char")" -eq 7 ]; then
            cd "${cmd_output#?}"
        else
            command cdw "$@"
        fi
    else
        command cdw "$@"
        return $exit_status
    fi
}
"#;

pub const XONSH_FUNCTION: &'static str = r#"
def cdw(args):
    import subprocess
    try:
        cmd_output = subprocess.check_output(['cdw'] + args, text=True)
        if cmd_output.startswith('\a'):
            %cd @(cmd_output[1:].strip())
        else:
            print(cmd_output, end='')
    except subprocess.CalledProcessError as e:
        print(e.output, end='')
        return e.returncode
"#;

pub const NUSHELL_FUNCTION: &'static str = r#"#!/usr/bin/env nu
        
def --wrapped --env cdw [...args: string] {
    let cmd_output = ^cdw ...$args
    if ($env.LAST_EXIT_CODE == 0) and ($cmd_output | str starts-with "\u{7}") {
        cd ($cmd_output | str substring 1..)
    } else {
        print $cmd_output
    }
}
"#;

pub const PWSH_FUNCTION: &'static str = r#"#!/usr/bin/env pwsh

function cdw {
    $cmd_output =  & (Get-Command -Name cdw -CommandType Application).Definition[0] $args
    if ($LASTEXITCODE -eq 0) {
        if ($cmd_output.StartsWith("`a")) {
            Set-Location $cmd_output.Substring(1)
        } else {
            $cmd_output
        }
    } else {
        $cmd_output
        $LASTEXITCODE = 1
    }
}
"#;

pub const UNSUPPORTED_FUNCTION: &'static str = "# Unsupported shell\n";

pub const ZSH_COMPLETION: &'static str = r#"
#compdef cdw

_cdw() {
    local curcontext="$curcontext" state line
    typeset -A opt_args

    _arguments -C \
        '-i[Initialize shell function]' \
        '--init[Initialize shell function]' \
        '-v[Enable verbose mode]' \
        '--verbose[Enable verbose mode]' \
        '-c[Convert path without changing directory]' \
        '--convert[Convert path without changing directory]' \
        '--init-all[Initialize shell function for all available shells]' \
        '--init-display[Display shell function]:shell:(bash zsh fish pwsh nushell xonsh ksh sh)' \
        '*:filename:_files'
}

compdef _cdw cdw
"#;

pub const BASH_COMPLETION: &'static str = r#"
_cdw_autocomplete() {
    local cur prev opts
    COMPREPLY=()
    cur="${COMP_WORDS[COMP_CWORD]}"
    prev="${COMP_WORDS[COMP_CWORD-1]}"
    opts="-i --init -v --verbose -c --convert --init-all --init-display"

    if [[ ${cur} == -* ]] ; then
        COMPREPLY=( $(compgen -W "${opts}" -- ${cur}) )
        return 0
    fi

    if [[ ${prev} == "--init-display" ]] ; then
        COMPREPLY=( $(compgen -W "bash zsh fish pwsh nushell xonsh ksh sh" -- ${cur}) )
        return 0
    fi

    COMPREPLY=( $(compgen -f ${cur}) )
    return 0
}
complete -F _cdw_autocomplete cdw
"#;

pub const FISH_COMPLETION: &'static str = r#"
function _cdw_autocomplete
    set -l cmd (commandline -opc)
    set -l cur (commandline -ct)
    set -l opts -i --init -v --verbose -c --convert --init-all --init-display

    if string match -q -- '-*' $cur
        printf '%s\n' $opts
    else if test (count $cmd) -gt 1; and test "$cmd[-1]" = "--init-display"
        printf '%s\n' bash zsh fish pwsh nushell xonsh ksh sh
    else
        __fish_complete_path $cur
    end
end

complete -f -c cdw -a '(_cdw_autocomplete)'
"#;

pub const PWSH_COMPLETION: &'static str = r#"
Register-ArgumentCompleter -Native -CommandName cdw -ScriptBlock {
    param($wordToComplete, $commandAst, $cursorPosition)
    $opts = @('-i', '--init', '-v', '--verbose', '-c', '--convert', '--init-all', '--init-display')
    $shells = @('bash', 'zsh', 'fish', 'pwsh', 'nushell', 'xonsh', 'ksh', 'sh')

    if ($wordToComplete -match '^-') {
        return $opts | Where-Object { $_ -like "$wordToComplete*" }
    }

    if ($commandAst.CommandElements.Count -gt 2 -and $commandAst.CommandElements[-2] -eq '--init-display') {
        return $shells | Where-Object { $_ -like "$wordToComplete*" }
    }

    return Get-ChildItem -Path $wordToComplete* | Select-Object -ExpandProperty FullName
}
"#;

pub const NUSHELL_COMPLETION_HEAD: &'static str = r#"
def "nu-complete cdw" [] {
    let opts = ['-i' '--init' '-v' '--verbose' '-c' '--convert' '--init-all' '--init-display']
    let shells = ['bash' 'zsh' 'fish' 'pwsh' 'nushell' 'xonsh' 'ksh' 'sh']
    let input = ($in | str trim)
    
    if ($input | str starts-with '-') {
        $opts | where { $it | str starts-with $input }
    } else if ($input == '' or $input == '--init-display') {
        $shells
    } else {
        ls ($input + '*') | get name
    }
}

def "cdw completions" [] {
    [
        {name: 'path', type: 'string', description: 'Windows path to change directory to', template: 'nu-complete cdw'},
        {name: '--init', shorthand: '-i', type: 'switch', description: 'Initialize shell function'},
        {name: '--init-all', type: 'switch', description: 'Initialize shell function for all available shells'},
        {name: '--init-display', type: 'string', description: 'Display shell function', template: 'nu-complete cdw'},
        {name: '--verbose', shorthand: '-v', type: 'switch', description: 'Enable verbose mode'},
        {name: '--convert', shorthand: '-c', type: 'switch', description: 'Convert path without changing directory'}
    ]
}

export ext"#;

pub const NUSHELL_COMPLETION_TAIL: &'static str = r#"ern cdw [...args: string@'cdw completions']
"#;

pub const XONSH_COMPLETION: &'static str = r#"
def _cdw_completer(prefix, line, begidx, endidx, ctx):
    opts = ['-i', '--init', '-v', '--verbose', '-c', '--convert', '--init-all', '--init-display']
    shells = ['bash', 'zsh', 'fish', 'pwsh', 'nushell', 'xonsh', 'ksh', 'sh']

    if prefix.startswith('-'):
        return [o for o in opts if o.startswith(prefix)]
    elif len(line.split()) > 2 and line.split()[-2] == '--init-display':
        return [s for s in shells if s.startswith(prefix)]
    else:
        return [p for p in __xonsh__.subproc_captured(['ls', '-d', f'{prefix}*']).splitlines()]

completer add cdw _cdw_completer
"#;

pub const UNSUPPORTED_COMPLETION: &'static str = "# Autocomplete not supported for this shell\n";

/// The wrapper function text for a dialect.
pub open spec fn kind_function_spec(k: ShellKind) -> Seq<char> {
    match k {
        ShellKind::Fish => FISH_FUNCTION@,
        ShellKind::Zsh | ShellKind::Bash | ShellKind::Sh | ShellKind::Ksh => POSIX_FUNCTION@,
        ShellKind::Xonsh => XONSH_FUNCTION@,
        ShellKind::Nushell => NUSHELL_FUNCTION@,
        ShellKind::PowerShell => PWSH_FUNCTION@,
    }
}

/// The wrapper function text a name selects: every accepted alias of
/// a dialect selects that dialect's wrapper, and a name that does not
/// parse selects the unsupported marker.
pub open spec fn shell_function_spec(s: Seq<char>) -> Seq<char> {
    match parse_shell_spec(s) {
        Some(k) => kind_function_spec(k),
        None => UNSUPPORTED_FUNCTION@,
    }
}

/// The wrapper function for a dialect name or alias: the per-shell
/// text that intercepts the signal line, or a marker comment for a
/// name no dialect accepts.
pub fn get_shell_function(shell: &str) -> (r: String)
    ensures
        r@ == shell_function_spec(shell@),
{
    match parse_shell(shell) {
        Some(ShellKind::Fish) => String::from_str(FISH_FUNCTION),
        Some(ShellKind::Zsh) | Some(ShellKind::Bash) | Some(ShellKind::Sh) | Some(
            ShellKind::Ksh,
        ) => String::from_str(POSIX_FUNCTION),
        Some(ShellKind::Xonsh) => String::from_str(XONSH_FUNCTION),
        Some(ShellKind::Nushell) => String::from_str(NUSHELL_FUNCTION),
        Some(ShellKind::PowerShell) => String::from_str(PWSH_FUNCTION),
        None => String::from_str(UNSUPPORTED_FUNCTION),
    }
}

/// The completion script text for a dialect.
pub open spec fn kind_autocomplete_spec(k: ShellKind) -> Seq<char> {
    match k {
        ShellKind::Zsh => ZSH_COMPLETION@,
        ShellKind::Bash => BASH_COMPLETION@,
        ShellKind::Fish => FISH_COMPLETION@,
        ShellKind::PowerShell => PWSH_COMPLETION@,
        ShellKind::Nushell => NUSHELL_COMPLETION_HEAD@ + NUSHELL_COMPLETION_TAIL@,
        ShellKind::Xonsh => XONSH_COMPLETION@,
        ShellKind::Ksh | ShellKind::Sh => UNSUPPORTED_COMPLETION@,
    }
}

/// The completion script a name selects: keyed by dialect, so every
/// accepted alias selects the same script; a name that does not parse
/// selects the unsupported marker.
pub open spec fn autocomplete_script_spec(s: Seq<char>) -> Seq<char> {
    match parse_shell_spec(s) {
        Some(k) => kind_autocomplete_spec(k),
        None => UNSUPPORTED_COMPLETION@,
    }
}

/// The completion script for a dialect name or alias, or a marker
/// comment where no script exists.
pub fn get_autocomplete_script(shell: &str) -> (r: String)
    ensures
        r@ == autocomplete_script_spec(shell@),
{
    match parse_shell(shell) {
        Some(ShellKind::Zsh) => String::from_str(ZSH_COMPLETION),
        Some(ShellKind::Bash) => String::from_str(BASH_COMPLETION),
        Some(ShellKind::Fish) => String::from_str(FISH_COMPLETION),
        Some(ShellKind::PowerShell) => String::from_str(PWSH_COMPLETION),
        Some(ShellKind::Nushell) => String::from_str(NUSHELL_COMPLETION_HEAD).concat(
            NUSHELL_COMPLETION_TAIL,
        ),
        Some(ShellKind::Xonsh) => String::from_str(XONSH_COMPLETION),
        Some(ShellKind::Ksh) | Some(ShellKind::Sh) | None => String::from_str(
            UNSUPPORTED_COMPLETION,
        ),
    }
}

/// The startup file of a dialect, under the given home directory.
pub open spec fn kind_config_file_spec(k: ShellKind, home: Seq<char>) -> Seq<char> {
    match k {
        ShellKind::Fish => home + "/.config/fish/config.fish"@,
        ShellKind::Zsh => home + "/.zshrc"@,
        ShellKind::Bash => home + "/.bashrc"@,
        ShellKind::Ksh => home + "/.kshrc"@,
        ShellKind::Xonsh => home + "/.xonshrc"@,
        ShellKind::Nushell => home + "/.config/nushell/config.nu"@,
        ShellKind::PowerShell => home + "/.config/powershell/Microsoft.PowerShell_profile.ps1"@,
        ShellKind::Sh => home + "/.profile"@,
    }
}

/// The startup file a name selects: keyed by dialect, so every
/// accepted alias selects the same file; a name that does not parse
/// shares the plain profile.
pub open spec fn shell_config_file_spec(s: Seq<char>, home: Seq<char>) -> Seq<char> {
    match parse_shell_spec(s) {
        Some(k) => kind_config_file_spec(k, home),
        None => home + "/.profile"@,
    }
}

/// The startup file that a dialect sources, under the given home
/// directory; unknown names share the plain profile.
pub fn get_shell_config_file(shell: &str, home: &str) -> (r: String)
    ensures
        r@ == shell_config_file_spec(shell@, home@),
{
    let base = String::from_str(home);
    match parse_shell(shell) {
        Some(ShellKind::Fish) => base.concat("/.config/fish/config.fish"),
        Some(ShellKind::Zsh) => base.concat("/.zshrc"),
        Some(ShellKind::Bash) => base.concat("/.bashrc"),
        Some(ShellKind::Ksh) => base.concat("/.kshrc"),
        Some(ShellKind::Xonsh) => base.concat("/.xonshrc"),
        Some(ShellKind::Nushell) => base.concat("/.config/nushell/config.nu"),
        Some(ShellKind::PowerShell) => base.concat(
            "/.config/powershell/Microsoft.PowerShell_profile.ps1",
        ),
        Some(ShellKind::Sh) | None => base.concat("/.profile"),
    }
}

/// The line appended to a startup file to load the wrapper: fish also
/// loads the completion script, nushell uses its `source` form, and
/// every other dialect, like every unknown name, uses the dot form.
pub open spec fn source_line_spec(s: Seq<char>, function_file: Seq<char>, autocomplete_file: Seq<char>) -> Seq<char> {
    if parse_shell_spec(s) == Some(ShellKind::Fish) {
        "source "@ + function_file + "; source "@ + autocomplete_file
    } else if parse_shell_spec(s) == Some(ShellKind::Nushell) {
        "source "@ + function_file
    } else {
        ". "@ + function_file
    }
}

/// The startup-file line that loads the installed wrapper files for a
/// dialect.
pub fn get_source_line(shell: &str, function_file: &str, autocomplete_file: &str) -> (r: String)
    ensures
        r@ == source_line_spec(shell@, function_file@, autocomplete_file@),
{
    match parse_shell(shell) {
        Some(ShellKind::Fish) => {
            let mut line = String::from_str("source ");
            line.append(function_file);
            line.append("; source ");
            line.append(autocomplete_file);
            line
        },
        Some(ShellKind::Nushell) => String::from_str("source ").concat(function_file),
        _ => String::from_str(". ").concat(function_file),
    }
}

/// The command a user runs to apply a freshly edited startup file.
pub fn user_source_line(shell: &str, home: &str) -> (r: String)
    ensures
        r@ == "source "@ + shell_config_file_spec(shell@, home@),
{
    let file = get_shell_config_file(shell, home);
    String::from_str("source ").concat(file.as_str())
}

/// The file extension the installed wrapper files carry: keyed by
/// dialect, `nu` and `ps1` for the two dialects with a conventional
/// extension of their own, the canonical dialect name otherwise, and
/// the given name itself when it does not parse.
pub open spec fn config_suffix_spec(s: Seq<char>) -> Seq<char> {
    match parse_shell_spec(s) {
        Some(ShellKind::Nushell) => "nu"@,
        Some(ShellKind::PowerShell) => "ps1"@,
        Some(k) => shell_name_spec(k),
        None => s,
    }
}

/// The extension of the wrapper files written for a dialect.
pub fn config_file_suffix(shell: &str) -> (r: String)
    ensures
        r@ == config_suffix_spec(shell@),
{
    match parse_shell(shell) {
        Some(ShellKind::Nushell) => String::from_str("nu"),
        Some(ShellKind::PowerShell) => String::from_str("ps1"),
        Some(k) => shell_name(k),
        None => String::from_str(shell),
    }
}

/// Two names accepted as aliases of the same dialect select the same
/// wrapper, the same completion script, the same startup file, the
/// same source line and the same file extension.
pub proof fn lemma_aliases_select_alike(
    a: Seq<char>,
    b: Seq<char>,
    home: Seq<char>,
    function_file: Seq<char>,
    autocomplete_file: Seq<char>,
)
    requires
        parse_shell_spec(a) == parse_shell_spec(b),
        parse_shell_spec(a) is Some,
    ensures
        shell_function_spec(a) == shell_function_spec(b),
        autocomplete_script_spec(a) == autocomplete_script_spec(b),
        shell_config_file_spec(a, home) == shell_config_file_spec(b, home),
        source_line_spec(a, function_file, autocomplete_file) == source_line_spec(
            b,
            function_file,
            autocomplete_file,
        ),
        config_suffix_spec(a) == config_suffix_spec(b),
{
}

/// The directory the wrapper and completion files are written to.
pub fn cdw_config_dir(home: &str) -> (r: String)
    ensures
        r@ == home@ + "/.config/cdw"@,
{
    String::from_str(home).concat("/.config/cdw")
}

/// The path of the wrapper file inside the configuration directory.
pub fn function_file_path(dir: &str, suffix: &str) -> (r: String)
    ensures
        r@ == dir@ + "/function."@ + suffix@,
{
    let mut path = String::from_str(dir);
    path.append("/function.");
    path.append(suffix);
    path
}

/// The path of the completion file inside the configuration
/// directory.
pub fn autocomplete_file_path(dir: &str, suffix: &str) -> (r: String)
    ensures
        r@ == dir@ + "/autocomplete."@ + suffix@,
{
    let mut path = String::from_str(dir);
    path.append("/autocomplete.");
    path.append(suffix);
    path
}

} // verus!
