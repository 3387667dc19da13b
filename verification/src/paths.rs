//! Paths held as text, extended the way Unix paths are.

use vstd::prelude::*;

verus! {

/// The path that extending `base` with `rel` gives on Unix: an absolute
/// `rel` replaces `base`; otherwise `rel` is appended, with a `/` put in
/// between when `base` is non-empty and does not already end in one.
pub open spec fn joined(base: Seq<char>, rel: Seq<char>) -> Seq<char> {
    if rel.len() > 0 && rel[0] == '/' {
        rel
    } else if base.len() > 0 && base.last() != '/' {
        base + seq!['/'] + rel
    } else {
        base + rel
    }
}

/// Extends the path `base` with `rel`.
pub fn join(base: &str, rel: &str) -> (p: String)
    ensures
        p@ == joined(base@, rel@),
{
    let nb = base.unicode_len();
    let nr = rel.unicode_len();
    if nr > 0 && rel.get_char(0) == '/' {
        return rel.to_owned();
    }
    let mut p = base.to_owned();
    if nb > 0 && base.get_char(nb - 1) != '/' {
        proof {
            reveal_strlit("/");
        }
        p.append("/");
        assert("/"@ =~= seq!['/']);
    }
    p.append(rel);
    p
}

} // verus!
