//! The signal protocol: decides whether an invocation asks the
//! wrapper to change directory or only to print, and frames the one
//! authoritative stdout line that the per-shell wrappers parse.
use vstd::prelude::*;

use crate::chars::push_char;
use crate::translate::{translate_spec, windows_to_wsl_path};

verus! {

/// What one invocation asks of the consuming wrapper: change the
/// working directory to the path, or print the value as it stands.
pub enum DispatchOutcome {
    ChangeDirectory(String),
    PrintValue(String),
}

/// The one line the protocol writes first to stdout: in
/// change-directory mode the BEL control character immediately
/// followed by the path, in convert mode the path alone.
pub open spec fn framed_line(convert: bool, path: Seq<char>) -> Seq<char> {
    if convert {
        path
    } else {
        seq!['\u{7}'] + path
    }
}

/// The line a given outcome puts on the wire.
pub open spec fn signal_line_spec(o: DispatchOutcome) -> Seq<char> {
    match o {
        DispatchOutcome::ChangeDirectory(p) => seq!['\u{7}'] + p@,
        DispatchOutcome::PrintValue(p) => p@,
    }
}

/// Chooses the outcome of an invocation: the default mode asks for a
/// directory change, the convert flag asks for plain output. Either
/// way the payload is exactly the translated path.
pub fn plan_dispatch(convert: bool, wsl_path: String) -> (r: DispatchOutcome)
    ensures
        convert ==> (r matches DispatchOutcome::PrintValue(p) && p@ == wsl_path@),
        !convert ==> (r matches DispatchOutcome::ChangeDirectory(p) && p@ == wsl_path@),
        signal_line_spec(r) == framed_line(convert, wsl_path@),
{
    if convert {
        DispatchOutcome::PrintValue(wsl_path)
    } else {
        DispatchOutcome::ChangeDirectory(wsl_path)
    }
}

/// Renders the outcome as the wire line the wrappers parse.
pub fn signal_line(o: &DispatchOutcome) -> (r: String)
    ensures
        r@ == signal_line_spec(*o),
{
    match o {
        DispatchOutcome::ChangeDirectory(p) => {
            let mut out = String::new();
            push_char(&mut out, '\u{7}');
            out.append(p.as_str());
            assert(out@ =~= seq!['\u{7}'] + p@);
            out
        },
        DispatchOutcome::PrintValue(p) => p.clone(),
    }
}

/// Everything one successful convert/cd invocation writes to stdout,
/// in order: the signal line first, then, in verbose mode only, the
/// two diagnostic lines. Only the first line is authoritative.
pub fn output_lines(convert: bool, verbose: bool, windows_path: &str) -> (r: Vec<String>)
    ensures
        r@.len() == (if verbose {
            3int
        } else {
            1int
        }),
        r@[0]@ == framed_line(convert, translate_spec(windows_path@)),
        verbose ==> r@[1]@ == "Windows path: "@ + windows_path@,
        verbose ==> r@[2]@ == "WSL path: "@ + translate_spec(windows_path@),
{
    let wsl_path = windows_to_wsl_path(windows_path);
    let outcome = plan_dispatch(convert, wsl_path);
    let mut lines: Vec<String> = Vec::new();
    lines.push(signal_line(&outcome));
    if verbose {
        let mut windows_line = String::from_str("Windows path: ");
        windows_line.append(windows_path);
        lines.push(windows_line);
        let mut wsl_line = String::from_str("WSL path: ");
        let wsl_again = windows_to_wsl_path(windows_path);
        wsl_line.append(wsl_again.as_str());
        lines.push(wsl_line);
    }
    lines
}

/// A control character: a code point below the printable range.
pub open spec fn is_control_char(c: char) -> bool {
    (c as u32) < 32
}

/// In the default mode the first character of the wire line is the
/// BEL control character, code point seven, and the characters after
/// it are exactly the translated path.
pub proof fn lemma_framing_change_directory(path: Seq<char>)
    ensures
        framed_line(false, path).len() == path.len() + 1,
        framed_line(false, path)[0] == '\u{7}',
        ('\u{7}' as u32) == 7,
        framed_line(false, path).subrange(1, path.len() as int + 1) == path,
{
    assert(framed_line(false, path).subrange(1, path.len() as int + 1) =~= path);
}

/// In convert mode the wire line is exactly the translated path, with
/// no control character prepended: whenever the path itself does not
/// begin with one, neither does the line.
pub proof fn lemma_framing_convert(path: Seq<char>)
    ensures
        framed_line(true, path) == path,
        path.len() > 0 && !is_control_char(path[0]) ==> !is_control_char(framed_line(
            true,
            path,
        )[0]),
{
}

} // verus!
