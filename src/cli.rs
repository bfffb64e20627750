use vstd::prelude::*;

use crate::config::{config_result, Config};
use crate::error::BackedUpError;
use crate::filter::texts;
use crate::grammar::DEFAULT_GRAMMAR;
use crate::slots::{Period, SlotConfig};

verus! {

/// The settings given on the command line.
pub struct ArgParser {
    /// The directory holding the backups.
    pub path: String,
    /// A configuration file that replaces the other settings.
    pub config: Option<String>,
    /// Wildcard patterns that file names must match.
    pub pattern: Vec<String>,
    pub yearly: usize,
    pub monthly: usize,
    pub daily: usize,
    pub hourly: usize,
    pub minutely: usize,
    /// A timestamp grammar to use instead of the default one.
    pub regex: Option<String>,
    /// Whether to delete the files, rather than only report the plan.
    pub execute: bool,
}

impl ArgParser {
    /// The grammar source the settings ask for.
    pub open spec fn grammar_source(&self) -> Seq<char> {
        match self.regex {
            Some(s) => s@,
            None => DEFAULT_GRAMMAR@,
        }
    }

    /// The configuration that the slot counts, patterns and grammar on the
    /// command line describe.
    pub fn to_config(&self) -> (r: Result<Config, BackedUpError>)
        ensures
            (self.yearly == 0 && self.monthly == 0 && self.daily == 0 && self.hourly == 0
                && self.minutely == 0) ==> r matches Err(BackedUpError::NoSlot),
            !(self.yearly == 0 && self.monthly == 0 && self.daily == 0 && self.hourly == 0
                && self.minutely == 0) ==> exists|s: SlotConfig|
                {
                    &&& s.count(Period::Years) == self.yearly
                    &&& s.count(Period::Months) == self.monthly
                    &&& s.count(Period::Days) == self.daily
                    &&& s.count(Period::Hours) == self.hourly
                    &&& s.count(Period::Minutes) == self.minutely
                    &&& config_result(r, s, texts(self.pattern@), self.grammar_source())
                },
    {
        let slots = match SlotConfig::new(
            self.yearly,
            self.monthly,
            self.daily,
            self.hourly,
            self.minutely,
        ) {
            Ok(s) => s,
            Err(e) => return Err(e),
        };
        let re_str = match &self.regex {
            Some(s) => Some(s.as_str()),
            None => None,
        };
        Config::new(slots, self.pattern.as_slice(), re_str)
    }
}

} // verus!
