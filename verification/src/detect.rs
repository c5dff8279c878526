//! The shell identifier: decides which dialect the user is running
//! from environment markers and the outcome of the process-ancestry
//! walk, and enumerates the installed shells from probe outcomes.
//!
//! The caller performs the environment reads and the process queries
//! and hands their plain results in; every decision taken on them is
//! made here.
use vstd::prelude::*;

use crate::chars::{contains_seq, lower_seq, trim_spec};
use crate::chars::{str_contains, to_ascii_lower, trim_ascii, str_eq};
use crate::shell::{parse_shell_spec, shell_name_spec, ShellKind};
use crate::shell::{parse_shell, shell_name};

verus! {

/// Everything shell detection reads, gathered by the caller: the
/// PowerShell module-path variable, the name the ancestry walk found
/// for the grandparent process (`None` when any step of the walk
/// failed), and which of the per-shell version markers are set.
pub struct DetectInput {
    pub ps_module_path: Option<String>,
    pub ancestor_name: Option<String>,
    pub xonsh_version: bool,
    pub nu_version: bool,
    pub fish_version: bool,
    pub zsh_version: bool,
    pub bash_version: bool,
}

/// The module-path variable is set and names PowerShell, compared
/// without regard to case.
pub open spec fn ps_marker_set(inp: DetectInput) -> bool {
    inp.ps_module_path is Some && contains_seq(
        lower_seq(inp.ps_module_path->0@),
        "powershell"@,
    )
}

/// The dialect the grandparent process name denotes, if the walk
/// produced a name and the name parses.
pub open spec fn ancestor_kind(inp: DetectInput) -> Option<ShellKind> {
    if inp.ancestor_name is Some {
        parse_shell_spec(inp.ancestor_name->0@)
    } else {
        None
    }
}

/// The detected shell: the PowerShell marker wins, then the ancestry
/// walk, then the version markers in a fixed order, then the safe
/// fallback `sh`. First match decides.
pub open spec fn detect_spec(inp: DetectInput) -> Seq<char> {
    if ps_marker_set(inp) {
        "pwsh"@
    } else if ancestor_kind(inp) is Some {
        shell_name_spec(ancestor_kind(inp)->0)
    } else if inp.xonsh_version {
        "xonsh"@
    } else if inp.nu_version {
        "nu"@
    } else if inp.fish_version {
        "fish"@
    } else if inp.zsh_version {
        "zsh"@
    } else if inp.bash_version {
        "bash"@
    } else {
        "sh"@
    }
}

/// Detects the invoking shell from the gathered facts. Total: every
/// input yields a name, and absent every marker the result is `sh`.
pub fn detect_shell(inp: &DetectInput) -> (r: String)
    ensures
        r@ == detect_spec(*inp),
{
    if let Some(ps_path) = &inp.ps_module_path {
        let folded = to_ascii_lower(ps_path.as_str());
        if str_contains(folded.as_str(), "powershell") {
            return String::from_str("pwsh");
        }
    }
    if let Some(name) = &inp.ancestor_name {
        if let Some(kind) = parse_shell(name.as_str()) {
            return shell_name(kind);
        }
    }
    if inp.xonsh_version {
        return String::from_str("xonsh");
    }
    if inp.nu_version {
        return String::from_str("nu");
    }
    if inp.fish_version {
        return String::from_str("fish");
    }
    if inp.zsh_version {
        return String::from_str("zsh");
    }
    if inp.bash_version {
        return String::from_str("bash");
    }
    String::from_str("sh")
}

/// Detection always yields a usable, non-empty name.
pub proof fn lemma_detect_never_empty(inp: DetectInput)
    ensures
        detect_spec(inp).len() > 0,
{
    reveal_strlit("bash");
    reveal_strlit("zsh");
    reveal_strlit("fish");
    reveal_strlit("pwsh");
    reveal_strlit("powershell");
    reveal_strlit("nu");
    reveal_strlit("nushell");
    reveal_strlit("xonsh");
    reveal_strlit("ksh");
    reveal_strlit("sh");
}

/// Absent every environment marker, and with the ancestry walk having
/// failed or produced an unparsable name, detection falls back to
/// `sh`.
pub proof fn lemma_detect_fallback(inp: DetectInput)
    requires
        !ps_marker_set(inp),
        ancestor_kind(inp) is None,
        !inp.xonsh_version,
        !inp.nu_version,
        !inp.fish_version,
        !inp.zsh_version,
        !inp.bash_version,
    ensures
        detect_spec(inp) == "sh"@,
{
}

/// The process-status command that asks for the parent id of a
/// process: the first step of the ancestry walk takes the shell's own
/// id placeholder, the second the trimmed id the first one printed.
pub fn ps_ppid_query(pid: &str) -> (r: String)
    ensures
        r@ == "ps -p "@ + pid@ + " -o ppid="@,
{
    let mut cmd = String::from_str("ps -p ");
    cmd.append(pid);
    cmd.append(" -o ppid=");
    cmd
}

/// The process-status command that asks for the command name of a
/// process: the last step of the ancestry walk, on the grandparent id.
pub fn ps_comm_query(pid: &str) -> (r: String)
    ensures
        r@ == "ps -p "@ + pid@ + " -o comm="@,
{
    let mut cmd = String::from_str("ps -p ");
    cmd.append(pid);
    cmd.append(" -o comm=");
    cmd
}

/// The outcome of probing each shell's executable with its version
/// query: whether the query ran and exited successfully, and for `sh`
/// the text that its trivial echo command printed (`None` when the
/// command failed).
pub struct ProbeResults {
    pub bash: bool,
    pub zsh: bool,
    pub fish: bool,
    pub pwsh: bool,
    pub nu: bool,
    pub xonsh: bool,
    pub ksh: bool,
    pub sh_echo: Option<String>,
}

/// The `sh` probe succeeded: the echo command ran and printed `1`.
pub open spec fn sh_probe_ok(p: ProbeResults) -> bool {
    p.sh_echo is Some && trim_spec(p.sh_echo->0@) == "1"@
}

/// The probe for one dialect succeeded.
pub open spec fn probe_ok(p: ProbeResults, k: ShellKind) -> bool {
    match k {
        ShellKind::Bash => p.bash,
        ShellKind::Zsh => p.zsh,
        ShellKind::Fish => p.fish,
        ShellKind::PowerShell => p.pwsh,
        ShellKind::Nushell => p.nu,
        ShellKind::Xonsh => p.xonsh,
        ShellKind::Ksh => p.ksh,
        ShellKind::Sh => sh_probe_ok(p),
    }
}

/// One dialect's contribution to the enumeration.
pub open spec fn seq_if(b: bool, k: ShellKind) -> Seq<ShellKind> {
    if b {
        seq![k]
    } else {
        Seq::empty()
    }
}

/// The installed shells, in the fixed probe order.
pub open spec fn available_spec(p: ProbeResults) -> Seq<ShellKind> {
    seq_if(p.bash, ShellKind::Bash) + seq_if(p.zsh, ShellKind::Zsh) + seq_if(
        p.fish,
        ShellKind::Fish,
    ) + seq_if(p.pwsh, ShellKind::PowerShell) + seq_if(p.nu, ShellKind::Nushell) + seq_if(
        p.xonsh,
        ShellKind::Xonsh,
    ) + seq_if(p.ksh, ShellKind::Ksh) + seq_if(sh_probe_ok(p), ShellKind::Sh)
}

/// Lists the installed shells: exactly those whose probe succeeded,
/// in the fixed probe order. Total: a failed probe only excludes its
/// shell.
#[verifier::rlimit(50)]
pub fn available_shells(p: &ProbeResults) -> (r: Vec<ShellKind>)
    ensures
        r@ == available_spec(*p),
{
    let mut found: Vec<ShellKind> = Vec::new();
    if p.bash {
        found.push(ShellKind::Bash);
    }
    assert(found@ =~= seq_if(p.bash, ShellKind::Bash));
    if p.zsh {
        found.push(ShellKind::Zsh);
    }
    assert(found@ =~= seq_if(p.bash, ShellKind::Bash) + seq_if(p.zsh, ShellKind::Zsh));
    if p.fish {
        found.push(ShellKind::Fish);
    }
    assert(found@ =~= seq_if(p.bash, ShellKind::Bash) + seq_if(p.zsh, ShellKind::Zsh) + seq_if(
        p.fish,
        ShellKind::Fish,
    ));
    if p.pwsh {
        found.push(ShellKind::PowerShell);
    }
    assert(found@ =~= seq_if(p.bash, ShellKind::Bash) + seq_if(p.zsh, ShellKind::Zsh) + seq_if(
        p.fish,
        ShellKind::Fish,
    ) + seq_if(p.pwsh, ShellKind::PowerShell));
    if p.nu {
        found.push(ShellKind::Nushell);
    }
    assert(found@ =~= seq_if(p.bash, ShellKind::Bash) + seq_if(p.zsh, ShellKind::Zsh) + seq_if(
        p.fish,
        ShellKind::Fish,
    ) + seq_if(p.pwsh, ShellKind::PowerShell) + seq_if(p.nu, ShellKind::Nushell));
    if p.xonsh {
        found.push(ShellKind::Xonsh);
    }
    assert(found@ =~= seq_if(p.bash, ShellKind::Bash) + seq_if(p.zsh, ShellKind::Zsh) + seq_if(
        p.fish,
        ShellKind::Fish,
    ) + seq_if(p.pwsh, ShellKind::PowerShell) + seq_if(p.nu, ShellKind::Nushell) + seq_if(
        p.xonsh,
        ShellKind::Xonsh,
    ));
    if p.ksh {
        found.push(ShellKind::Ksh);
    }
    assert(found@ =~= seq_if(p.bash, ShellKind::Bash) + seq_if(p.zsh, ShellKind::Zsh) + seq_if(
        p.fish,
        ShellKind::Fish,
    ) + seq_if(p.pwsh, ShellKind::PowerShell) + seq_if(p.nu, ShellKind::Nushell) + seq_if(
        p.xonsh,
        ShellKind::Xonsh,
    ) + seq_if(p.ksh, ShellKind::Ksh));
    let sh_present = match &p.sh_echo {
        Some(out) => {
            let trimmed = trim_ascii(out.as_str());
            str_eq(trimmed.as_str(), "1")
        },
        None => false,
    };
    if sh_present {
        found.push(ShellKind::Sh);
    }
    assert(found@ =~= available_spec(*p));
    found
}

/// The members of a concatenation are the members of its parts.
proof fn lemma_add_contains<A>(a: Seq<A>, b: Seq<A>, x: A)
    ensures
        (a + b).contains(x) <==> a.contains(x) || b.contains(x),
{
    if a.contains(x) {
        let i = choose|i: int| 0 <= i < a.len() && a[i] == x;
        assert((a + b)[i] == x);
    }
    if b.contains(x) {
        let i = choose|i: int| 0 <= i < b.len() && b[i] == x;
        assert((a + b)[a.len() + i] == x);
    }
    if (a + b).contains(x) {
        let i = choose|i: int| 0 <= i < (a + b).len() && (a + b)[i] == x;
        if i < a.len() {
            assert(a[i] == x);
        } else {
            assert(b[i - a.len()] == x);
        }
    }
}

proof fn lemma_seq_if_contains(b: bool, k: ShellKind, x: ShellKind)
    ensures
        seq_if(b, k).contains(x) <==> (b && x == k),
{
    if b {
        assert(seq_if(b, k)[0] == k);
    }
}

/// A shell whose probe did not succeed is never listed, and one whose
/// probe succeeded always is: membership in the enumeration matches
/// the probe outcome exactly.
pub proof fn lemma_available_matches_probes(p: ProbeResults)
    ensures
        forall|k: ShellKind| #[trigger] available_spec(p).contains(k) <==> probe_ok(p, k),
{
    assert forall|k: ShellKind| #[trigger] available_spec(p).contains(k) <==> probe_ok(
        p,
        k,
    ) by {
        let s1 = seq_if(p.bash, ShellKind::Bash);
        let s2 = seq_if(p.zsh, ShellKind::Zsh);
        let s3 = seq_if(p.fish, ShellKind::Fish);
        let s4 = seq_if(p.pwsh, ShellKind::PowerShell);
        let s5 = seq_if(p.nu, ShellKind::Nushell);
        let s6 = seq_if(p.xonsh, ShellKind::Xonsh);
        let s7 = seq_if(p.ksh, ShellKind::Ksh);
        let s8 = seq_if(sh_probe_ok(p), ShellKind::Sh);
        lemma_seq_if_contains(p.bash, ShellKind::Bash, k);
        lemma_seq_if_contains(p.zsh, ShellKind::Zsh, k);
        lemma_seq_if_contains(p.fish, ShellKind::Fish, k);
        lemma_seq_if_contains(p.pwsh, ShellKind::PowerShell, k);
        lemma_seq_if_contains(p.nu, ShellKind::Nushell, k);
        lemma_seq_if_contains(p.xonsh, ShellKind::Xonsh, k);
        lemma_seq_if_contains(p.ksh, ShellKind::Ksh, k);
        lemma_seq_if_contains(sh_probe_ok(p), ShellKind::Sh, k);
        lemma_add_contains(s1, s2, k);
        lemma_add_contains(s1 + s2, s3, k);
        lemma_add_contains(s1 + s2 + s3, s4, k);
        lemma_add_contains(s1 + s2 + s3 + s4, s5, k);
        lemma_add_contains(s1 + s2 + s3 + s4 + s5, s6, k);
        lemma_add_contains(s1 + s2 + s3 + s4 + s5 + s6, s7, k);
        lemma_add_contains(s1 + s2 + s3 + s4 + s5 + s6 + s7, s8, k);
    }
}

} // verus!
