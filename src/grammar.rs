use vstd::prelude::*;

verus! {

#[verifier::external_type_specification]
#[verifier::external_body]
pub struct ExRegex(regex::Regex);

#[verifier::external_type_specification]
#[verifier::external_body]
pub struct ExRegexError(regex::Error);

/// Whether `regex::Regex::new` accepts `pattern`.
pub uninterp spec fn regex_accepts(pattern: Seq<char>) -> bool;

/// The names of the named capture groups of `pattern`, in the order they open.
pub uninterp spec fn regex_group_names(pattern: Seq<char>) -> Seq<Seq<char>>;

/// The text captured by the group called `group` in the leftmost match of
/// `pattern` in `text`; `None` when nothing matches or the group took no part.
pub uninterp spec fn regex_capture(pattern: Seq<char>, text: Seq<char>, group: Seq<char>) -> Option<
    Seq<char>,
>;

/// The timestamp grammar used when none is configured: a four-digit year, then
/// two-digit month and day, optionally followed by a two-digit hour and minute
/// and an optional two-digit second, each field separated by at most one
/// non-digit character.
pub const DEFAULT_GRAMMAR: &'static str = r"(?x)(?P<year>\d{4}) \D?
(?P<month>\d{2}) \D?
(?P<day>\d{2}) \D?
(
   # Optional components.
   (?P<hour>\d{2}) \D?
   (?P<minute>\d{2}) \D?
   (?P<second>\d{2})?
)?";

/// Relies on `regex::Regex::new`: it fails exactly on the patterns it rejects.
#[verifier::external_body]
fn compile(pattern: &str) -> (r: Result<regex::Regex, regex::Error>)
    ensures
        r is Ok <==> regex_accepts(pattern@),
{
    regex::Regex::new(pattern)
}

/// A compiled timestamp grammar together with the pattern it was compiled from.
///
/// The only way to build one is `Grammar::new`, which compiles `source` into
/// `re`; the two fields never change afterwards.
pub struct Grammar {
    source: String,
    re: regex::Regex,
}

/// Relies on `regex::Regex::capture_names`: the names of the named groups, in order.
#[verifier::external_body]
fn group_names(g: &Grammar) -> (r: Vec<String>)
    ensures
        r@.map_values(|s: String| s@) == regex_group_names(g.source()),
{
    g.re.capture_names().flatten().map(|n| n.to_string()).collect()
}

/// Relies on `regex::Regex::captures` and `regex::Captures::name`: the text of
/// one named group in the leftmost match.
#[verifier::external_body]
fn capture<'a>(g: &Grammar, text: &'a str, group: &str) -> (r: Option<&'a str>)
    ensures
        r is None <==> regex_capture(g.source(), text@, group@) is None,
        r matches Some(s) ==> regex_capture(g.source(), text@, group@) == Some(s@),
{
    g.re.captures(text).and_then(|c| c.name(group)).map(|m| m.as_str())
}

impl Grammar {
    /// The pattern this grammar was compiled from.
    pub closed spec fn source(&self) -> Seq<char> {
        self.source@
    }

    /// Compiles `pattern`; fails with the regex error when the pattern is rejected.
    pub fn new(pattern: &str) -> (r: Result<Grammar, regex::Error>)
        ensures
            r is Ok <==> regex_accepts(pattern@),
            r matches Ok(g) ==> g.source() == pattern@,
    {
        match compile(pattern) {
            Ok(re) => Ok(Grammar { source: pattern.to_owned(), re }),
            Err(e) => Err(e),
        }
    }

    /// The names of the named capture groups, in order.
    pub fn group_names(&self) -> (r: Vec<String>)
        ensures
            r@.map_values(|s: String| s@) == regex_group_names(self.source()),
    {
        group_names(self)
    }

    /// Whether the grammar has a named group called `name`.
    pub fn has_group(&self, name: &str) -> (r: bool)
        ensures
            r == regex_group_names(self.source()).contains(name@),
    {
        let names = group_names(self);
        let target = name.to_owned();
        let ghost views = names@.map_values(|s: String| s@);
        let mut i: usize = 0;
        while i < names.len()
            invariant
                i <= names.len(),
                views == regex_group_names(self.source()),
                views == names@.map_values(|s: String| s@),
                target@ == name@,
                forall|k: int| 0 <= k < i ==> views[k] != name@,
            decreases names.len() - i,
        {
            assert(views[i as int] == names@[i as int]@);
            if names[i] == target {
                return true;
            }
            i += 1;
        }
        assert(!views.contains(name@));
        false
    }

    /// The text that the group `group` captures in `text`.
    pub fn capture<'a>(&self, text: &'a str, group: &str) -> (r: Option<&'a str>)
        ensures
            r is None <==> regex_capture(self.source(), text@, group@) is None,
            r matches Some(s) ==> regex_capture(self.source(), text@, group@) == Some(s@),
    {
        capture(self, text, group)
    }
}

} // verus!
