use vstd::prelude::*;

verus! {

/// Whether the wildcard pattern `p` matches the whole of `s`: `?` stands for
/// exactly one character, `*` for any run of characters (the empty one too),
/// and every other character for itself.
pub open spec fn glob_match(p: Seq<char>, s: Seq<char>) -> bool
    decreases p.len() + s.len(),
{
    if p.len() == 0 {
        s.len() == 0
    } else if p[0] == '*' {
        glob_match(p.drop_first(), s) || (s.len() > 0 && glob_match(p, s.drop_first()))
    } else {
        s.len() > 0 && (p[0] == '?' || p[0] == s[0]) && glob_match(p.drop_first(), s.drop_first())
    }
}

/// A name passes a list of patterns when the list is empty or one of them matches.
pub open spec fn passes_filter(patterns: Seq<Seq<char>>, name: Seq<char>) -> bool {
    patterns.len() == 0 || exists|i: int| 0 <= i < patterns.len() && glob_match(patterns[i], name)
}

/// The character views of a sequence of strings.
pub open spec fn texts(v: Seq<String>) -> Seq<Seq<char>> {
    v.map_values(|s: String| s@)
}

/// Relies on `wildmatch::WildMatch::matches`: `?` is one character, `*` any
/// run, anything else itself, and the pattern must cover the whole input.
#[verifier::external_body]
fn wildcard_matches(pattern: &str, name: &str) -> (r: bool)
    ensures
        r == glob_match(pattern@, name@),
{
    wildmatch::WildMatch::new(pattern).matches(name)
}

/// Whether `name` passes the wildcard `patterns`; an empty list lets everything through.
pub fn name_passes(patterns: &[String], name: &str) -> (r: bool)
    ensures
        r == passes_filter(texts(patterns@), name@),
{
    let ghost ps = texts(patterns@);
    if patterns.len() == 0 {
        return true;
    }
    let mut i: usize = 0;
    while i < patterns.len()
        invariant
            i <= patterns.len(),
            ps == texts(patterns@),
            forall|k: int| 0 <= k < i ==> !glob_match(#[trigger] ps[k], name@),
        decreases patterns.len() - i,
    {
        assert(ps[i as int] == patterns@[i as int]@);
        if wildcard_matches(patterns[i].as_str(), name) {
            return true;
        }
        i += 1;
    }
    false
}

} // verus!
