//! Character and line-level utilities shared by the operand parser, the label
//! resolver and the assembly pipeline: ASCII upper-casing, whitespace
//! trimming, comment stripping and newline splitting, each with a spec-level
//! model over `Seq<char>`.

use vstd::prelude::*;
use vstd::string::StrSliceExecFns;

verus! {

/// Whitespace recognised by the trimming routines.
pub open spec fn is_space(c: char) -> bool {
    c == ' ' || c == '\t' || c == '\r' || c == '\n'
}

/// ASCII upper-casing of a single character; everything outside `a`..`z` is
/// left unchanged.
pub open spec fn to_upper(c: char) -> char {
    if 97 <= c as u32 && c as u32 <= 122 {
        (((c as u32) - 32) as u8) as char
    } else {
        c
    }
}

/// ASCII upper-casing of a character sequence.
pub open spec fn upper(s: Seq<char>) -> Seq<char> {
    Seq::new(s.len(), |i: int| to_upper(s[i]))
}

/// `p` is a prefix of `s`.
pub open spec fn starts_with(s: Seq<char>, p: Seq<char>) -> bool {
    p.len() <= s.len() && s.subrange(0, p.len() as int) == p
}

fn upper_char(c: char) -> (r: char)
    ensures
        r == to_upper(c),
{
    let u = c as u32;
    if 97 <= u && u <= 122 {
        ((u - 32) as u8) as char
    } else {
        c
    }
}

/// Relies on `String::push`: appends the given character to the end of the
/// string.
#[verifier::external_body]
fn push_char(s: &mut String, c: char)
    ensures
        final(s)@ == old(s)@.push(c),
{
    s.push(c);
}

/// Upper-cases a string, character by character.
pub fn upper_str(s: &str) -> (r: String)
    ensures
        r@ == upper(s@),
{
    let n = s.unicode_len();
    let mut out = String::new();
    let mut i: usize = 0;
    while i < n
        invariant
            n == s@.len(),
            i <= n,
            out@.len() == i,
            forall|k: int| 0 <= k < i ==> out@[k] == to_upper(s@[k]),
        decreases n - i,
    {
        let c = s.get_char(i);
        push_char(&mut out, upper_char(c));
        i = i + 1;
    }
    proof {
        assert(out@ =~= upper(s@));
    }
    out
}

/// Position of the first occurrence of `c` in `s` at or after `i`, or
/// `s.len()` when there is none.
pub open spec fn char_pos(s: Seq<char>, i: int, c: char) -> int
    decreases s.len() - i,
{
    if i < 0 || i >= s.len() {
        s.len() as int
    } else if s[i] == c {
        i
    } else {
        char_pos(s, i + 1, c)
    }
}

pub proof fn lemma_char_pos_range(s: Seq<char>, i: int, c: char)
    requires
        0 <= i <= s.len(),
    ensures
        i <= char_pos(s, i, c) <= s.len(),
        char_pos(s, i, c) < s.len() ==> s[char_pos(s, i, c)] == c,
        forall|k: int| i <= k < char_pos(s, i, c) ==> s[k] != c,
    decreases s.len() - i,
{
    if i < s.len() && s[i] != c {
        lemma_char_pos_range(s, i + 1, c);
    }
}

/// Finds the first occurrence of `c` in `s` at or after `from`.
pub fn find_char(s: &str, from: usize, c: char) -> (r: usize)
    requires
        from <= s@.len(),
    ensures
        r == char_pos(s@, from as int, c),
{
    let n = s.unicode_len();
    let mut i: usize = from;
    while i < n
        invariant
            n == s@.len(),
            from <= i <= n,
            char_pos(s@, from as int, c) == char_pos(s@, i as int, c),
        decreases n - i,
    {
        if s.get_char(i) == c {
            return i;
        }
        i = i + 1;
    }
    i
}

/// Position of the first `//` in `s` at or after `i`, or `s.len()` when there
/// is none.
pub open spec fn comment_pos(s: Seq<char>, i: int) -> int
    decreases s.len() - i,
{
    if i < 0 || i + 1 >= s.len() {
        s.len() as int
    } else if s[i] == '/' && s[i + 1] == '/' {
        i
    } else {
        comment_pos(s, i + 1)
    }
}

proof fn lemma_comment_pos_range(s: Seq<char>, i: int)
    requires
        0 <= i <= s.len(),
    ensures
        i <= comment_pos(s, i) <= s.len(),
    decreases s.len() - i,
{
    if i + 1 < s.len() && !(s[i] == '/' && s[i + 1] == '/') {
        lemma_comment_pos_range(s, i + 1);
    }
}

/// The text before the first `//`, or all of `s` when it has no comment.
pub open spec fn before_comment(s: Seq<char>) -> Seq<char> {
    s.subrange(0, comment_pos(s, 0))
}

/// Strips the trailing `//` comment, if any.
pub fn before_comment_str<'a>(s: &'a str) -> (r: &'a str)
    ensures
        r@ == before_comment(s@),
{
    let n = s.unicode_len();
    let stop = if n == 0 {
        0
    } else {
        n - 1
    };
    let mut i: usize = 0;
    proof {
        lemma_comment_pos_range(s@, 0);
    }
    while i < stop
        invariant
            n == s@.len(),
            n == 0 ==> stop == 0,
            n > 0 ==> stop == n - 1,
            i <= stop,
            comment_pos(s@, 0) == comment_pos(s@, i as int),
        decreases n - i,
    {
        if s.get_char(i) == '/' && s.get_char(i + 1) == '/' {
            proof {
                lemma_comment_pos_range(s@, 0);
            }
            return s.substring_char(0, i);
        }
        i = i + 1;
    }
    proof {
        assert(s@ =~= s@.subrange(0, s@.len() as int));
    }
    s
}

/// `s` with leading whitespace removed.
pub open spec fn trim_start(s: Seq<char>) -> Seq<char>
    decreases s.len(),
{
    if s.len() > 0 && is_space(s[0]) {
        trim_start(s.drop_first())
    } else {
        s
    }
}

/// `s` with trailing whitespace removed.
pub open spec fn trim_end(s: Seq<char>) -> Seq<char>
    decreases s.len(),
{
    if s.len() > 0 && is_space(s.last()) {
        trim_end(s.drop_last())
    } else {
        s
    }
}

/// `s` with leading and trailing whitespace removed.
pub open spec fn trim(s: Seq<char>) -> Seq<char> {
    trim_end(trim_start(s))
}

proof fn lemma_trim_start_at(s: Seq<char>, i: int)
    requires
        0 <= i <= s.len(),
        forall|k: int| 0 <= k < i ==> is_space(s[k]),
        i == s.len() || !is_space(s[i]),
    ensures
        trim_start(s) == s.subrange(i, s.len() as int),
    decreases i,
{
    if i == 0 {
        assert(s =~= s.subrange(0, s.len() as int));
    } else {
        let t = s.drop_first();
        assert(forall|k: int| 0 <= k < i - 1 ==> is_space(t[k]));
        lemma_trim_start_at(t, i - 1);
        assert(t.subrange(i - 1, t.len() as int) =~= s.subrange(i, s.len() as int));
    }
}

proof fn lemma_trim_end_at(s: Seq<char>, j: int)
    requires
        0 <= j <= s.len(),
        forall|k: int| j <= k < s.len() ==> is_space(s[k]),
        j == 0 || !is_space(s[j - 1]),
    ensures
        trim_end(s) == s.subrange(0, j),
    decreases s.len() - j,
{
    if j == s.len() {
        assert(s =~= s.subrange(0, s.len() as int));
    } else {
        let t = s.drop_last();
        assert(forall|k: int| j <= k < t.len() ==> is_space(t[k]));
        lemma_trim_end_at(t, j);
        assert(t.subrange(0, j) =~= s.subrange(0, j));
    }
}

/// Trims leading and trailing whitespace.
pub fn trim_str<'a>(s: &'a str) -> (r: &'a str)
    ensures
        r@ == trim(s@),
{
    let n = s.unicode_len();
    let mut i: usize = 0;
    while i < n && is_space_char(s.get_char(i))
        invariant
            n == s@.len(),
            i <= n,
            forall|k: int| 0 <= k < i ==> is_space(s@[k]),
        decreases n - i,
    {
        i = i + 1;
    }
    let mut j: usize = n;
    while j > i && is_space_char(s.get_char(j - 1))
        invariant
            n == s@.len(),
            i <= j <= n,
            forall|k: int| j <= k < n ==> is_space(s@[k]),
        decreases j,
    {
        j = j - 1;
    }
    proof {
        lemma_trim_start_at(s@, i as int);
        let t = s@.subrange(i as int, s@.len() as int);
        if j > i {
            lemma_trim_end_at(t, j - i);
        } else {
            lemma_trim_end_at(t, 0);
        }
        assert(t.subrange(0, j - i) =~= s@.subrange(i as int, j as int));
    }
    s.substring_char(i, j)
}

fn is_space_char(c: char) -> (r: bool)
    ensures
        r == is_space(c),
{
    c == ' ' || c == '\t' || c == '\r' || c == '\n'
}

/// The lines of `s`, split on `\n`; the final line has no terminator, and a
/// trailing `\n` yields a final empty line.
pub open spec fn split_lines(s: Seq<char>) -> Seq<Seq<char>>
    decreases s.len(),
{
    let p = char_pos(s, 0, '\n');
    if 0 <= p < s.len() {
        seq![s.subrange(0, p)] + split_lines(s.subrange(p + 1, s.len() as int))
    } else {
        seq![s]
    }
}

proof fn lemma_char_pos_sub(s: Seq<char>, i: int, j: int, c: char)
    requires
        0 <= i <= s.len(),
        0 <= j,
    ensures
        char_pos(s.subrange(i, s.len() as int), j, c) == char_pos(s, i + j, c) - i,
    decreases s.len() - i - j,
{
    let t = s.subrange(i, s.len() as int);
    if j >= t.len() {
    } else if t[j] == c {
    } else {
        lemma_char_pos_sub(s, i, j + 1, c);
    }
}

/// Splits `s` into its lines.
pub fn lines_of<'a>(s: &'a str) -> (r: Vec<&'a str>)
    ensures
        r@.len() == split_lines(s@).len(),
        forall|k: int| 0 <= k < r@.len() ==> r@[k]@ == split_lines(s@)[k],
{
    let n = s.unicode_len();
    let mut out: Vec<&str> = Vec::new();
    let mut cur: usize = 0;
    proof {
        assert(s@ =~= s@.subrange(0, n as int));
        assert(out@.map_values(|t: &str| t@) + split_lines(s@) =~= split_lines(s@));
    }
    loop
        invariant
            n == s@.len(),
            cur <= n,
            split_lines(s@) == out@.map_values(|t: &str| t@) + split_lines(
                s@.subrange(cur as int, n as int),
            ),
        decreases n - cur,
    {
        let ghost cur0 = cur as int;
        let ghost rest = s@.subrange(cur as int, n as int);
        let ghost pre = out@;
        let p = find_char(s, cur, '\n');
        proof {
            lemma_char_pos_range(s@, cur as int, '\n');
            lemma_char_pos_sub(s@, cur as int, 0, '\n');
            assert(char_pos(rest, 0, '\n') == char_pos(s@, cur as int, '\n') - cur);
        }
        if p == n {
            let piece = s.substring_char(cur, n);
            proof {
                assert(char_pos(rest, 0, '\n') == rest.len());
                assert(split_lines(rest) =~= seq![rest]);
            }
            out.push(piece);
            proof {
                assert(out@.map_values(|t: &str| t@) =~= pre.map_values(|t: &str| t@).push(
                    rest,
                ));
                assert(split_lines(s@) =~= out@.map_values(|t: &str| t@));
            }
            return out;
        } else {
            let piece = s.substring_char(cur, p);
            out.push(piece);
            cur = p + 1;
            proof {
                assert(rest.subrange(0, p - cur0) =~= s@.subrange(cur0, p as int));
                assert(rest.subrange(p - cur0 + 1, rest.len() as int) =~= s@.subrange(
                    cur as int,
                    n as int,
                ));
                assert(out@.map_values(|t: &str| t@) =~= pre.map_values(|t: &str| t@).push(
                    piece@,
                ));
                assert(split_lines(rest) == seq![piece@] + split_lines(
                    s@.subrange(cur as int, n as int),
                ));
                assert(split_lines(s@) =~= out@.map_values(|t: &str| t@) + split_lines(
                    s@.subrange(cur as int, n as int),
                ));
            }
        }
    }
}

/// Whether `s` begins with the prefix `p`.
pub fn starts_with_str(s: &str, p: &str) -> (r: bool)
    ensures
        r == starts_with(s@, p@),
{
    let m = p.unicode_len();
    if m > s.unicode_len() {
        return false;
    }
    let mut i: usize = 0;
    while i < m
        invariant
            m == p@.len(),
            m <= s@.len(),
            i <= m,
            forall|k: int| 0 <= k < i ==> s@[k] == p@[k],
        decreases m - i,
    {
        if s.get_char(i) != p.get_char(i) {
            proof {
                assert(s@.subrange(0, m as int)[i as int] != p@[i as int]);
            }
            return false;
        }
        i = i + 1;
    }
    proof {
        assert(s@.subrange(0, m as int) =~= p@);
    }
    true
}

/// Character-by-character string equality.
pub fn eq_str(a: &str, b: &str) -> (r: bool)
    ensures
        r == (a@ == b@),
{
    let n = a.unicode_len();
    if n != b.unicode_len() {
        return false;
    }
    let mut i: usize = 0;
    while i < n
        invariant
            n == a@.len(),
            n == b@.len(),
            i <= n,
            forall|k: int| 0 <= k < i ==> a@[k] == b@[k],
        decreases n - i,
    {
        if a.get_char(i) != b.get_char(i) {
            return false;
        }
        i = i + 1;
    }
    proof {
        assert(a@ =~= b@);
    }
    true
}

} // verus!
