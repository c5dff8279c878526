//! The path translator: turns a drive-rooted Windows path into the
//! matching mount point of the compatibility layer, and passes every
//! other input through unchanged.
use vstd::prelude::*;

use crate::chars::{is_ascii_letter, lower_char};
use crate::chars::{fold_char, push_char};

verus! {

/// Every backslash becomes a forward slash; all other characters stay.
pub open spec fn slashed(s: Seq<char>) -> Seq<char> {
    s.map_values(|c: char| if c == '\\' { '/' } else { c })
}

/// A full drive-rooted Windows path: a letter, a colon, a backslash,
/// then the remainder.
pub open spec fn is_full_drive_path(s: Seq<char>) -> bool {
    s.len() >= 3 && is_ascii_letter(s[0]) && s[1] == ':' && s[2] == '\\'
}

/// A bare drive: exactly a letter and a colon.
pub open spec fn is_bare_drive(s: Seq<char>) -> bool {
    s.len() == 2 && is_ascii_letter(s[0]) && s[1] == ':'
}

/// What the translator returns: the mount point for a drive-rooted
/// path, a trailing slash for a bare drive, and the input itself in
/// every other case.
pub open spec fn translate_spec(s: Seq<char>) -> Seq<char> {
    if is_full_drive_path(s) {
        "/mnt/"@ + seq![lower_char(s[0]), '/'] + slashed(s.subrange(3, s.len() as int))
    } else if is_bare_drive(s) {
        "/mnt/"@ + seq![lower_char(s[0]), '/']
    } else {
        s
    }
}

/// Executable test for an ASCII letter.
pub fn is_letter_exec(c: char) -> (r: bool)
    ensures
        r == is_ascii_letter(c),
{
    let code: u32 = c as u32;
    (65 <= code && code <= 90) || (97 <= code && code <= 122)
}

/// Translates a Windows path to its location under the mount root.
/// Total: input that is not drive-rooted comes back unchanged.
pub fn windows_to_wsl_path(path: &str) -> (r: String)
    ensures
        r@ == translate_spec(path@),
{
    let n: usize = path.unicode_len();
    if n >= 2 {
        let c0 = path.get_char(0);
        let c1 = path.get_char(1);
        if c1 == ':' && is_letter_exec(c0) {
            if n == 2 {
                let mut out: String = String::from_str("/mnt/");
                push_char(&mut out, fold_char(c0));
                push_char(&mut out, '/');
                proof {
                    assert(out@ =~= "/mnt/"@ + seq![lower_char(path@[0]), '/']);
                }
                return out;
            }
            if path.get_char(2) == '\\' {
                let mut out: String = String::from_str("/mnt/");
                push_char(&mut out, fold_char(c0));
                push_char(&mut out, '/');
                proof {
                    assert(path@.subrange(3, 3) =~= Seq::<char>::empty());
                    assert(out@ =~= "/mnt/"@ + seq![lower_char(path@[0]), '/'] + slashed(
                        path@.subrange(3, 3),
                    ));
                }
                let mut i: usize = 3;
                while i < n
                    invariant
                        n == path@.len(),
                        3 <= i <= n,
                        is_full_drive_path(path@),
                        out@ == "/mnt/"@ + seq![lower_char(path@[0]), '/'] + slashed(
                            path@.subrange(3, i as int),
                        ),
                    decreases n - i,
                {
                    let c = path.get_char(i);
                    if c == '\\' {
                        push_char(&mut out, '/');
                    } else {
                        push_char(&mut out, c);
                    }
                    proof {
                        assert(slashed(path@.subrange(3, i + 1)) =~= slashed(
                            path@.subrange(3, i as int),
                        ).push(if path@[i as int] == '\\' {
                            '/'
                        } else {
                            path@[i as int]
                        }));
                        assert(out@ =~= "/mnt/"@ + seq![lower_char(path@[0]), '/'] + slashed(
                            path@.subrange(3, i + 1),
                        ));
                    }
                    i = i + 1;
                }
                proof {
                    assert(path@.subrange(3, n as int) =~= path@.subrange(3, path@.len() as int));
                }
                return out;
            }
        }
    }
    String::from_str(path)
}

/// The translator is idempotent on input that is not drive-rooted:
/// such input passes through once, and what passed through passes
/// through again.
pub proof fn lemma_translate_idempotent(p: Seq<char>)
    requires
        !is_full_drive_path(p),
        !is_bare_drive(p),
    ensures
        translate_spec(translate_spec(p)) == translate_spec(p),
{
}

/// For a single letter `l` and any suffix `s` that does not start with
/// a colon, the drive-rooted path `l:\s` translates to the mount point
/// with the drive lowercased and the suffix's backslashes flipped.
pub proof fn lemma_translate_drive_path(l: char, s: Seq<char>)
    requires
        is_ascii_letter(l),
        s.len() == 0 || s[0] != ':',
    ensures
        translate_spec(seq![l, ':', '\\'] + s) == "/mnt/"@ + seq![lower_char(l), '/'] + slashed(s),
{
    let p = seq![l, ':', '\\'] + s;
    assert(p[0] == l && p[1] == ':' && p[2] == '\\');
    assert(is_full_drive_path(p));
    assert(p.subrange(3, p.len() as int) =~= s);
}

} // verus!
