//! Character-level text helpers: Unicode whitespace trimming, prefix and
//! suffix tests, suffix stripping and the answers accepted at prompts.

use vstd::prelude::*;

verus! {

/// The Unicode `White_Space` property, which is what `char::is_whitespace`
/// tests.
pub open spec fn is_space(c: char) -> bool {
    let v = c as u32;
    ||| 0x09 <= v <= 0x0D
    ||| v == 0x20
    ||| v == 0x85
    ||| v == 0xA0
    ||| v == 0x1680
    ||| 0x2000 <= v <= 0x200A
    ||| v == 0x2028
    ||| v == 0x2029
    ||| v == 0x202F
    ||| v == 0x205F
    ||| v == 0x3000
}

/// `s` without its leading whitespace.
pub open spec fn trim_start(s: Seq<char>) -> Seq<char>
    decreases s.len(),
{
    if s.len() > 0 && is_space(s[0]) {
        trim_start(s.drop_first())
    } else {
        s
    }
}

/// `s` without its trailing whitespace.
pub open spec fn trim_end(s: Seq<char>) -> Seq<char>
    decreases s.len(),
{
    if s.len() > 0 && is_space(s.last()) {
        trim_end(s.drop_last())
    } else {
        s
    }
}

/// `s` without leading and trailing whitespace.
pub open spec fn trim(s: Seq<char>) -> Seq<char> {
    trim_end(trim_start(s))
}

/// Decides whether `c` is Unicode whitespace.
pub fn is_whitespace(c: char) -> (b: bool)
    ensures
        b == is_space(c),
{
    let v = c as u32;
    (0x09 <= v && v <= 0x0D) || v == 0x20 || v == 0x85 || v == 0xA0 || v == 0x1680 || (0x2000
        <= v && v <= 0x200A) || v == 0x2028 || v == 0x2029 || v == 0x202F || v == 0x205F || v
        == 0x3000
}

proof fn lemma_trim_start_skip(s: Seq<char>, i: int)
    requires
        0 <= i < s.len(),
        is_space(s[i]),
    ensures
        trim_start(s.subrange(i, s.len() as int)) == trim_start(
            s.subrange(i + 1, s.len() as int),
        ),
{
    assert(s.subrange(i, s.len() as int).drop_first() =~= s.subrange(i + 1, s.len() as int));
}

proof fn lemma_trim_end_skip(s: Seq<char>, j: int)
    requires
        0 < j <= s.len(),
        is_space(s[j - 1]),
    ensures
        trim_end(s.subrange(0, j)) == trim_end(s.subrange(0, j - 1)),
{
    assert(s.subrange(0, j).drop_last() =~= s.subrange(0, j - 1));
}

/// Returns `s` with leading and trailing whitespace removed.
pub fn trim_str(s: &str) -> (r: &str)
    ensures
        r@ == trim(s@),
{
    let n = s.unicode_len();
    let mut i: usize = 0;
    assert(s@.subrange(0, n as int) =~= s@);
    while i < n && is_whitespace(s.get_char(i))
        invariant
            n == s@.len(),
            i <= n,
            trim_start(s@) == trim_start(s@.subrange(i as int, n as int)),
        decreases n - i,
    {
        proof {
            lemma_trim_start_skip(s@, i as int);
        }
        i = i + 1;
    }
    let ghost rest = s@.subrange(i as int, n as int);
    assert(trim_start(rest) == rest);
    assert(trim_start(s@) == rest);
    let mut j: usize = n;
    while j > i && is_whitespace(s.get_char(j - 1))
        invariant
            n == s@.len(),
            i <= j <= n,
            rest == s@.subrange(i as int, n as int),
            trim_end(rest) == trim_end(s@.subrange(i as int, j as int)),
        decreases j,
    {
        proof {
            let t = s@.subrange(i as int, j as int);
            assert(t[t.len() - 1] == s@[j - 1]);
            lemma_trim_end_skip(t, t.len() as int);
            assert(t.subrange(0, t.len() - 1) =~= s@.subrange(i as int, j - 1));
            assert(t.subrange(0, t.len() as int) =~= t);
        }
        j = j - 1;
    }
    let r = s.substring_char(i, j);
    proof {
        let t = s@.subrange(i as int, j as int);
        if t.len() > 0 {
            assert(t.last() == s@[j - 1]);
        }
        assert(trim_end(t) == t);
    }
    r
}

/// `p` is a prefix of `s`.
pub open spec fn has_prefix(s: Seq<char>, p: Seq<char>) -> bool {
    p.len() <= s.len() && s.subrange(0, p.len() as int) == p
}

/// `p` is a suffix of `s`.
pub open spec fn has_suffix(s: Seq<char>, p: Seq<char>) -> bool {
    p.len() <= s.len() && s.subrange(s.len() - p.len(), s.len() as int) == p
}

/// `s` with every trailing repetition of a non-empty `p` removed, the way
/// `str::trim_end_matches` removes a string pattern.
pub open spec fn strip_suffixes(s: Seq<char>, p: Seq<char>) -> Seq<char>
    decreases s.len(),
{
    if p.len() > 0 && has_suffix(s, p) {
        strip_suffixes(s.subrange(0, s.len() - p.len()), p)
    } else {
        s
    }
}

/// Decides whether the characters of `s` from `start` on begin with `p`.
fn matches_at(s: &str, start: usize, p: &str) -> (b: bool)
    requires
        start <= s@.len(),
    ensures
        b == (start + p@.len() <= s@.len() && s@.subrange(
            start as int,
            start + p@.len(),
        ) == p@),
{
    let n = s.unicode_len();
    let m = p.unicode_len();
    if m > n - start {
        return false;
    }
    let mut k: usize = 0;
    while k < m
        invariant
            n == s@.len(),
            m == p@.len(),
            start + m <= n,
            k <= m,
            forall|t: int| 0 <= t < k ==> s@[start + t] == p@[t],
        decreases m - k,
    {
        if s.get_char(start + k) != p.get_char(k) {
            assert(s@.subrange(start as int, start + m)[k as int] != p@[k as int]);
            return false;
        }
        k = k + 1;
    }
    assert(s@.subrange(start as int, start + m) =~= p@);
    true
}

/// Decides whether `s` and `t` hold the same characters.
pub fn same_text(s: &str, t: &str) -> (b: bool)
    ensures
        b == (s@ == t@),
{
    let n = s.unicode_len();
    let m = t.unicode_len();
    if n != m {
        return false;
    }
    let b = matches_at(s, 0, t);
    assert(s@.subrange(0, n as int) =~= s@);
    b
}

/// Decides whether `s` begins with `p`.
pub fn starts_with(s: &str, p: &str) -> (b: bool)
    ensures
        b == has_prefix(s@, p@),
{
    matches_at(s, 0, p)
}

/// Decides whether `s` ends with `p`.
pub fn ends_with(s: &str, p: &str) -> (b: bool)
    ensures
        b == has_suffix(s@, p@),
{
    let n = s.unicode_len();
    let m = p.unicode_len();
    if m > n {
        return false;
    }
    matches_at(s, n - m, p)
}

/// Returns `s` with every trailing repetition of `p` removed.
pub fn strip_suffixes_str<'a>(s: &'a str, p: &str) -> (r: &'a str)
    ensures
        r@ == strip_suffixes(s@, p@),
{
    let n = s.unicode_len();
    let m = p.unicode_len();
    if m == 0 {
        return s;
    }
    let mut j: usize = n;
    assert(s@.subrange(0, n as int) =~= s@);
    while m <= j && matches_at(s, j - m, p)
        invariant
            n == s@.len(),
            m == p@.len(),
            m > 0,
            j <= n,
            strip_suffixes(s@, p@) == strip_suffixes(s@.subrange(0, j as int), p@),
        decreases j,
    {
        proof {
            let t = s@.subrange(0, j as int);
            assert(t.subrange(t.len() - m, t.len() as int) =~= s@.subrange(j - m, j as int));
            assert(t.subrange(0, t.len() - m) =~= s@.subrange(0, j - m));
        }
        j = j - m;
    }
    proof {
        let t = s@.subrange(0, j as int);
        if m <= j {
            assert(t.subrange(t.len() - m, t.len() as int) =~= s@.subrange(j - m, j as int));
        }
        assert(!has_suffix(t, p@));
    }
    s.substring_char(0, j)
}

/// The answers that accept a yes/no prompt: after trimming, the answer
/// lowercases to `y`, which only `y` and `Y` do.
pub open spec fn accepts_yes(answer: Seq<char>) -> bool {
    trim(answer) == seq!['y'] || trim(answer) == seq!['Y']
}

/// The answers that confirm a high-risk cleanup: `DELETE` once trimmed.
pub open spec fn accepts_delete(answer: Seq<char>) -> bool {
    trim(answer) == seq!['D', 'E', 'L', 'E', 'T', 'E']
}

/// Decides whether an answer to a yes/no prompt means yes.
pub fn is_yes(answer: &str) -> (b: bool)
    ensures
        b == accepts_yes(answer@),
{
    let t = trim_str(answer);
    proof {
        reveal_strlit("y");
        reveal_strlit("Y");
        assert("y"@ =~= seq!['y']);
        assert("Y"@ =~= seq!['Y']);
    }
    same_text(t, "y") || same_text(t, "Y")
}

/// Decides whether an answer confirms a high-risk cleanup.
pub fn is_delete_confirmation(answer: &str) -> (b: bool)
    ensures
        b == accepts_delete(answer@),
{
    let t = trim_str(answer);
    proof {
        reveal_strlit("DELETE");
        assert("DELETE"@ =~= seq!['D', 'E', 'L', 'E', 'T', 'E']);
    }
    same_text(t, "DELETE")
}

} // verus!
