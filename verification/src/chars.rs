//! Character-level helpers shared by the path translator and the shell
//! identifier: ASCII classification, case folding, equality and search
//! on strings viewed as sequences of characters.
use vstd::prelude::*;

verus! {

/// An ASCII letter, either case.
pub open spec fn is_ascii_letter(c: char) -> bool {
    ('A' <= c && c <= 'Z') || ('a' <= c && c <= 'z')
}

/// ASCII case folding of a single character: uppercase letters map to
/// their lowercase form, everything else is unchanged.
pub open spec fn lower_char(c: char) -> char {
    if 'A' <= c && c <= 'Z' {
        (((c as u8) + 32) as char)
    } else {
        c
    }
}

/// ASCII case folding of a whole sequence of characters.
pub open spec fn lower_seq(s: Seq<char>) -> Seq<char> {
    s.map_values(|c: char| lower_char(c))
}

/// Executable ASCII case folding of a single character.
pub fn fold_char(c: char) -> (r: char)
    ensures
        r == lower_char(c),
{
    let code: u32 = c as u32;
    if 65 <= code && code <= 90 {
        assert('A' <= c && c <= 'Z');
        ((c as u8) + 32) as char
    } else {
        assert(!('A' <= c && c <= 'Z'));
        c
    }
}

/// Relies on String::push: appends exactly the one character.
#[verifier::external_body]
pub fn push_char(s: &mut String, c: char)
    ensures
        final(s)@ == old(s)@.push(c),
{
    s.push(c)
}

/// Executable ASCII case folding of a string.
pub fn to_ascii_lower(s: &str) -> (r: String)
    ensures
        r@ == lower_seq(s@),
{
    let n: usize = s.unicode_len();
    let mut out: String = String::new();
    let mut i: usize = 0;
    while i < n
        invariant
            i <= n,
            n == s@.len(),
            out@.len() == i,
            forall|j: int| 0 <= j < i ==> out@[j] == lower_char(s@[j]),
        decreases n - i,
    {
        let c = s.get_char(i);
        push_char(&mut out, fold_char(c));
        i = i + 1;
    }
    assert(out@ =~= lower_seq(s@));
    out
}

/// Whether two strings hold the same characters.
pub fn str_eq(a: &str, b: &str) -> (r: bool)
    ensures
        r == (a@ == b@),
{
    let owned_a: String = a.to_owned();
    let owned_b: String = b.to_owned();
    owned_a == owned_b
}

/// The needle `n` occurs in the haystack `h` starting at index `i`.
pub open spec fn matches_at(h: Seq<char>, n: Seq<char>, i: int) -> bool {
    0 <= i && i + n.len() <= h.len() && h.subrange(i, i + n.len() as int) == n
}

/// The needle `n` occurs somewhere in the haystack `h`.
pub open spec fn contains_seq(h: Seq<char>, n: Seq<char>) -> bool {
    exists|i: int| matches_at(h, n, i)
}

fn match_at(h: &str, n: &str, i: usize) -> (r: bool)
    requires
        i + n@.len() <= h@.len(),
    ensures
        r == matches_at(h@, n@, i as int),
{
    let nl: usize = n.unicode_len();
    let hl: usize = h.unicode_len();
    let mut j: usize = 0;
    while j < nl
        invariant
            nl == n@.len(),
            hl == h@.len(),
            i + nl <= h@.len(),
            j <= nl,
            forall|m: int| 0 <= m < j ==> h@[i + m] == n@[m],
        decreases nl - j,
    {
        if h.get_char(i + j) != n.get_char(j) {
            assert(h@.subrange(i as int, i + n@.len() as int) == n@ ==> h@.subrange(
                i as int,
                i + n@.len() as int,
            )[j as int] == n@[j as int]);
            return false;
        }
        j = j + 1;
    }
    assert(h@.subrange(i as int, i + n@.len() as int) =~= n@);
    true
}

/// Whether the haystack contains the needle as a contiguous run of
/// characters.
pub fn str_contains(h: &str, n: &str) -> (r: bool)
    ensures
        r == contains_seq(h@, n@),
{
    let hl: usize = h.unicode_len();
    let nl: usize = n.unicode_len();
    if nl == 0 {
        assert(matches_at(h@, n@, 0)) by {
            assert(h@.subrange(0, 0) =~= n@);
        }
        return true;
    }
    if nl > hl {
        assert(forall|i: int| !matches_at(h@, n@, i));
        return false;
    }
    let mut i: usize = 0;
    while i <= hl - nl
        invariant
            hl == h@.len(),
            nl == n@.len(),
            0 < nl <= hl,
            i <= hl - nl + 1,
            forall|k: int| 0 <= k < i ==> !matches_at(h@, n@, k),
        decreases hl - nl + 1 - i,
    {
        if match_at(h, n, i) {
            return true;
        }
        i = i + 1;
    }
    assert(forall|k: int| !matches_at(h@, n@, k)) by {
        assert(forall|k: int| k > hl - nl ==> !matches_at(h@, n@, k));
    }
    false
}

/// ASCII whitespace, the kind that pads the output of process queries.
pub open spec fn is_space(c: char) -> bool {
    c == ' ' || c == '\t' || c == '\n' || c == '\r'
}

/// `s` with its leading whitespace removed.
pub open spec fn trim_left(s: Seq<char>) -> Seq<char>
    decreases s.len(),
{
    if s.len() > 0 && is_space(s[0]) {
        trim_left(s.drop_first())
    } else {
        s
    }
}

/// `s` with its trailing whitespace removed.
pub open spec fn trim_right(s: Seq<char>) -> Seq<char>
    decreases s.len(),
{
    if s.len() > 0 && is_space(s.last()) {
        trim_right(s.drop_last())
    } else {
        s
    }
}

/// `s` with whitespace removed from both ends.
pub open spec fn trim_spec(s: Seq<char>) -> Seq<char> {
    trim_right(trim_left(s))
}

proof fn lemma_trim_left_skip(s: Seq<char>, i: int)
    requires
        0 <= i <= s.len(),
        forall|j: int| 0 <= j < i ==> is_space(s[j]),
        i == s.len() || !is_space(s[i]),
    ensures
        trim_left(s) == s.subrange(i, s.len() as int),
    decreases i,
{
    if i == 0 {
        assert(s.subrange(0, s.len() as int) =~= s);
    } else {
        lemma_trim_left_skip(s.drop_first(), i - 1);
        assert(s.drop_first().subrange(i - 1, s.drop_first().len() as int) =~= s.subrange(
            i,
            s.len() as int,
        ));
    }
}

proof fn lemma_trim_right_keep(s: Seq<char>, i: int)
    requires
        0 <= i <= s.len(),
        forall|j: int| i <= j < s.len() ==> is_space(s[j]),
        i == 0 || !is_space(s[i - 1]),
    ensures
        trim_right(s) == s.subrange(0, i),
    decreases s.len() - i,
{
    if i == s.len() {
        if s.len() > 0 && is_space(s.last()) {
            assert(false);
        }
        assert(s.subrange(0, i) =~= s);
    } else {
        lemma_trim_right_keep(s.drop_last(), i);
        assert(s.drop_last().subrange(0, i) =~= s.subrange(0, i));
    }
}

/// Removes ASCII whitespace from both ends of `s`, the normalisation
/// applied to the output of every external process query.
pub fn trim_ascii(s: &str) -> (r: String)
    ensures
        r@ == trim_spec(s@),
{
    let n: usize = s.unicode_len();
    let mut start: usize = 0;
    while start < n && is_space_exec(s.get_char(start))
        invariant
            n == s@.len(),
            start <= n,
            forall|j: int| 0 <= j < start ==> is_space(s@[j]),
        decreases n - start,
    {
        start = start + 1;
    }
    proof {
        lemma_trim_left_skip(s@, start as int);
    }
    if start == n {
        proof {
            let t = trim_left(s@);
            assert(t =~= Seq::<char>::empty());
        }
        return String::new();
    }
    let mut end: usize = n;
    while end > start && is_space_exec(s.get_char(end - 1))
        invariant
            n == s@.len(),
            start <= end <= n,
            !is_space(s@[start as int]),
            forall|j: int| end <= j < n ==> is_space(s@[j]),
        decreases end,
    {
        end = end - 1;
    }
    let piece: &str = s.substring_char(start, end);
    let out: String = String::from_str(piece);
    proof {
        let t = trim_left(s@);
        assert(end > start);
        lemma_trim_right_keep(t, end - start);
        assert(t.subrange(0, end - start) =~= s@.subrange(start as int, end as int));
    }
    out
}

/// Executable test for ASCII whitespace.
pub fn is_space_exec(c: char) -> (r: bool)
    ensures
        r == is_space(c),
{
    c == ' ' || c == '\t' || c == '\n' || c == '\r'
}

} // verus!
