use vstd::prelude::*;

use crate::error::BackedUpError;
use crate::filter::texts;
use crate::grammar::{regex_accepts, regex_group_names, Grammar, DEFAULT_GRAMMAR};
use crate::slots::SlotConfig;

verus! {

/// The grammar source that a configuration uses: the given one, or the default.
pub open spec fn grammar_source(re_str: Option<&str>) -> Seq<char> {
    match re_str {
        Some(s) => s@,
        None => DEFAULT_GRAMMAR@,
    }
}

/// The first of the groups `year`, `month`, `day` that `names` lacks.
pub open spec fn missing_group(names: Seq<Seq<char>>) -> Option<Seq<char>> {
    if !names.contains("year"@) {
        Some("year"@)
    } else if !names.contains("month"@) {
        Some("month"@)
    } else if !names.contains("day"@) {
        Some("day"@)
    } else {
        None
    }
}

/// `r` is what building a configuration from `slots`, the wildcard `patterns`
/// and the grammar `source` gives: a regex error when the grammar does not
/// compile, else the first missing required group, else the configuration.
pub open spec fn config_result(
    r: Result<Config, BackedUpError>,
    slots: SlotConfig,
    patterns: Seq<Seq<char>>,
    source: Seq<char>,
) -> bool {
    if !regex_accepts(source) {
        r matches Err(BackedUpError::InvalidRegex(_))
    } else {
        match missing_group(regex_group_names(source)) {
            Some(g) => r matches Err(BackedUpError::MissingCaptureGroup(n)) && n@ == g,
            None => r matches Ok(c) && c.slot_config() == slots && c.patterns() == patterns
                && c.grammar_source() == source,
        }
    }
}

/// Slot counts, a wildcard filter on names and a timestamp grammar.
pub struct Config {
    slots: SlotConfig,
    pattern: Vec<String>,
    grammar: Grammar,
}

impl Config {
    pub closed spec fn slot_config(&self) -> SlotConfig {
        self.slots
    }

    /// The wildcard patterns; an empty list lets every name through.
    pub closed spec fn patterns(&self) -> Seq<Seq<char>> {
        texts(self.pattern@)
    }

    /// The source of the timestamp grammar.
    pub closed spec fn grammar_source(&self) -> Seq<char> {
        self.grammar.source()
    }

    /// Builds a configuration. `pattern` holds wildcard patterns that names
    /// must match (an empty list matches everything); `re_str` is a regular
    /// expression with at least the named groups `year`, `month` and `day`,
    /// and optionally `hour` and `minute`; without one the default grammar is used.
    pub fn new(slot_config: SlotConfig, pattern: &[String], re_str: Option<&str>) -> (r: Result<
        Self,
        BackedUpError,
    >)
        ensures
            config_result(r, slot_config, texts(pattern@), grammar_source(re_str)),
    {
        let source = match re_str {
            Some(s) => s,
            None => DEFAULT_GRAMMAR,
        };
        let grammar = match Grammar::new(source) {
            Ok(g) => g,
            Err(e) => return Err(BackedUpError::InvalidRegex(e)),
        };
        if !grammar.has_group("year") {
            return Err(BackedUpError::MissingCaptureGroup("year"));
        }
        if !grammar.has_group("month") {
            return Err(BackedUpError::MissingCaptureGroup("month"));
        }
        if !grammar.has_group("day") {
            return Err(BackedUpError::MissingCaptureGroup("day"));
        }
        let mut patterns: Vec<String> = Vec::new();
        let mut i: usize = 0;
        while i < pattern.len()
            invariant
                i <= pattern@.len(),
                texts(patterns@) == texts(pattern@).subrange(0, i as int),
            decreases pattern.len() - i,
        {
            let p = pattern[i].clone();
            proof {
                assert(p@ == pattern@[i as int]@);
                assert(texts(pattern@)[i as int] == pattern@[i as int]@);
                assert(texts(patterns@.push(p)) =~= texts(patterns@).push(p@));
                assert(texts(patterns@.push(p)) =~= texts(pattern@).subrange(0, i + 1));
            }
            patterns.push(p);
            i += 1;
        }
        assert(texts(pattern@).subrange(0, i as int) =~= texts(pattern@));
        Ok(Config { slots: slot_config, pattern: patterns, grammar })
    }

    /// The slot counts.
    pub fn slots(&self) -> (r: SlotConfig)
        ensures
            r == self.slot_config(),
    {
        self.slots
    }

    /// The wildcard patterns.
    pub fn pattern(&self) -> (r: &[String])
        ensures
            texts(r@) == self.patterns(),
    {
        self.pattern.as_slice()
    }

    /// The timestamp grammar.
    pub fn grammar(&self) -> (r: &Grammar)
        ensures
            r.source() == self.grammar_source(),
    {
        &self.grammar
    }
}

} // verus!
