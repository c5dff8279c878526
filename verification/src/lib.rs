//! Core of `cdw`: change directory to a Windows path from inside a
//! WSL shell.
//!
//! A spawned process cannot change its parent shell's working
//! directory, so the compiled helper and a small per-shell wrapper
//! function talk over a signal protocol on stdout: the first output
//! line either carries a BEL-prefixed path to `cd` into or a plain
//! value to display. This crate holds the verified core of that
//! design: the Windows-to-WSL path translator, the shell identifier
//! that picks the wrapper dialect, the signal framing itself, and the
//! per-dialect wrapper and completion templates. The unverified
//! front-end performs the argument parsing, environment reads,
//! process queries and file writes, and hands their plain results in.
use vstd::prelude::*;

pub mod chars;
pub mod detect;
pub mod dispatch;
pub mod shell;
pub mod templates;
pub mod translate;

verus! {

} // verus!
