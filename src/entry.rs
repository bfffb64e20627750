use vstd::prelude::*;

use crate::filter::{name_passes, passes_filter, texts};
use crate::grammar::{regex_capture, Grammar};
use crate::slots::Period;

verus! {

pub open spec fn is_digit(c: char) -> bool {
    '0' <= c <= '9'
}

/// The value of a string of decimal digits, most significant first.
pub open spec fn decimal(s: Seq<char>) -> int
    decreases s.len(),
{
    if s.len() == 0 {
        0
    } else {
        10 * decimal(s.drop_last()) + (s.last() as int - '0' as int)
    }
}

/// What follows an optional leading `+`.
pub open spec fn unsigned_body(s: Seq<char>) -> Seq<char> {
    if s.len() > 0 && s[0] == '+' {
        s.drop_first()
    } else {
        s
    }
}

pub open spec fn all_digits(s: Seq<char>) -> bool {
    forall|i: int| 0 <= i < s.len() ==> is_digit(#[trigger] s[i])
}

/// An unsigned integer as `str::parse` reads it: an optional `+`, then at
/// least one ASCII digit and nothing else, with a value of at most `max`.
pub open spec fn parse_unsigned(s: Seq<char>, max: int) -> Option<int> {
    let d = unsigned_body(s);
    if d.len() > 0 && all_digits(d) && decimal(d) <= max {
        Some(decimal(d))
    } else {
        None
    }
}

/// A captured field read as a number; absent or unreadable gives `None`.
pub open spec fn field_value(c: Option<Seq<char>>, max: int) -> Option<int> {
    match c {
        Some(t) => parse_unsigned(t, max),
        None => None,
    }
}

proof fn lemma_decimal_prefix(s: Seq<char>, k: int)
    requires
        0 <= k <= s.len(),
        forall|i: int| 0 <= i < s.len() ==> is_digit(#[trigger] s[i]),
    ensures
        0 <= decimal(s.subrange(0, k)) <= decimal(s),
    decreases s.len(),
{
    if s.len() > 0 {
        let p = s.drop_last();
        assert forall|i: int| 0 <= i < p.len() implies is_digit(#[trigger] p[i]) by {
            assert(p[i] == s[i]);
        }
        if k < s.len() {
            lemma_decimal_prefix(p, k);
            assert(p.subrange(0, k) =~= s.subrange(0, k));
        } else {
            lemma_decimal_prefix(p, 0);
            assert(s.subrange(0, k) =~= s);
        }
        assert(is_digit(s[s.len() - 1]));
    } else {
        assert(s.subrange(0, k) =~= s);
    }
}

/// Reads `s` as an unsigned integer no larger than `max`, as `str::parse` does.
pub fn parse_number(s: &str, max: u32) -> (r: Option<u32>)
    ensures
        r is None <==> parse_unsigned(s@, max as int) is None,
        r matches Some(v) ==> parse_unsigned(s@, max as int) == Some(v as int),
{
    let n = s.unicode_len();
    let mut start: usize = 0;
    if n > 0 && s.get_char(0) == '+' {
        start = 1;
    }
    let ghost d = unsigned_body(s@);
    assert(d =~= s@.subrange(start as int, n as int));
    if start == n {
        return None;
    }
    let mut acc: u32 = 0;
    let mut i: usize = start;
    while i < n
        invariant
            start <= i <= n,
            n == s@.len(),
            d =~= s@.subrange(start as int, n as int),
            d == unsigned_body(s@),
            forall|k: int| start <= k < i ==> is_digit(#[trigger] s@[k]),
            acc as int == decimal(s@.subrange(start as int, i as int)),
            acc <= max,
        decreases n - i,
    {
        let c = s.get_char(i);
        if !('0' <= c && c <= '9') {
            assert(d[i - start] == s@[i as int]);
            return None;
        }
        let ghost prev = s@.subrange(start as int, i as int);
        let ghost next = s@.subrange(start as int, i + 1);
        assert(next.drop_last() =~= prev);
        let digit = (c as u32) - ('0' as u32);
        let next_acc: u64 = acc as u64 * 10 + digit as u64;
        if next_acc > max as u64 {
            proof {
                if all_digits(d) {
                    lemma_decimal_prefix(d, i + 1 - start);
                    assert(d.subrange(0, i + 1 - start) =~= next);
                }
            }
            return None;
        }
        acc = next_acc as u32;
        i += 1;
    }
    assert(s@.subrange(start as int, n as int) =~= d);
    Some(acc)
}

/// What a backup entry means: its timestamp fields and its file name.
pub struct EntryView {
    pub year: u16,
    pub month: u8,
    pub day: u8,
    pub hour: u8,
    pub minute: u8,
    pub path: Seq<char>,
}

impl EntryView {
    /// The bucket of tier `t` that the entry falls in: the timestamp cut down
    /// to the fields the tier looks at, packed into one number. Each field sits
    /// above all the fields after it, so packed keys order as the truncated
    /// `(year, month, day, hour, minute)` tuples do, lexicographically.
    pub open spec fn key(self, t: Period) -> int {
        let y = self.year as int * 0x1_0000_0000;
        let m = self.month as int * 0x100_0000;
        let d = self.day as int * 0x1_0000;
        let h = self.hour as int * 0x100;
        match t {
            Period::Years => y,
            Period::Months => y + m,
            Period::Days => y + m + d,
            Period::Hours => y + m + d + h,
            Period::Minutes => y + m + d + h + self.minute as int,
        }
    }

    /// The full timestamp, packed; the sole measure of recency.
    pub open spec fn stamp(self) -> int {
        self.key(Period::Minutes)
    }
}

/// `a` comes before `b` in the lexicographic order of
/// `(year, month, day, hour, minute)`.
pub open spec fn earlier(a: EntryView, b: EntryView) -> bool {
    a.year < b.year || (a.year == b.year && (a.month < b.month || (a.month == b.month && (a.day
        < b.day || (a.day == b.day && (a.hour < b.hour || (a.hour == b.hour && a.minute
        < b.minute)))))))
}

/// Packed stamps compare as the timestamp tuples do.
pub proof fn lemma_stamp_order(a: EntryView, b: EntryView)
    ensures
        a.stamp() < b.stamp() <==> earlier(a, b),
        a.stamp() == b.stamp() <==> (a.year == b.year && a.month == b.month && a.day == b.day
            && a.hour == b.hour && a.minute == b.minute),
{
}

/// A file name together with the timestamp read from it.
#[derive(Debug, Clone, PartialEq, Eq)]
pub struct BackupEntry {
    pub year: u16,
    pub month: u8,
    pub day: u8,
    pub hour: u8,
    pub minute: u8,
    pub path: String,
}

impl View for BackupEntry {
    type V = EntryView;

    open spec fn view(&self) -> EntryView {
        EntryView {
            year: self.year,
            month: self.month,
            day: self.day,
            hour: self.hour,
            minute: self.minute,
            path: self.path@,
        }
    }
}

pub open spec fn entry_view(r: Option<BackupEntry>) -> Option<EntryView> {
    match r {
        Some(e) => Some(e@),
        None => None,
    }
}

pub open spec fn text_of(o: Option<&str>) -> Option<Seq<char>> {
    match o {
        Some(s) => Some(s@),
        None => None,
    }
}

/// The entry for `path` given the texts captured for its fields: year, month
/// and day must read as numbers that fit, hour and minute fall back to zero.
pub open spec fn entry_from_fields(
    path: Seq<char>,
    year: Option<Seq<char>>,
    month: Option<Seq<char>>,
    day: Option<Seq<char>>,
    hour: Option<Seq<char>>,
    minute: Option<Seq<char>>,
) -> Option<EntryView> {
    match (field_value(year, 0xffff), field_value(month, 0xff), field_value(day, 0xff)) {
        (Some(y), Some(mo), Some(d)) => Some(
            EntryView {
                year: y as u16,
                month: mo as u8,
                day: d as u8,
                hour: match field_value(hour, 0xff) {
                    Some(h) => h as u8,
                    None => 0,
                },
                minute: match field_value(minute, 0xff) {
                    Some(mi) => mi as u8,
                    None => 0,
                },
                path,
            },
        ),
        _ => None,
    }
}

/// The entry that the name `name` yields under the wildcard `patterns` and the
/// timestamp grammar `grammar`, if any.
pub open spec fn entry_of(patterns: Seq<Seq<char>>, grammar: Seq<char>, name: Seq<char>) -> Option<
    EntryView,
> {
    if passes_filter(patterns, name) {
        entry_from_fields(
            name,
            regex_capture(grammar, name, "year"@),
            regex_capture(grammar, name, "month"@),
            regex_capture(grammar, name, "day"@),
            regex_capture(grammar, name, "hour"@),
            regex_capture(grammar, name, "minute"@),
        )
    } else {
        None
    }
}

fn optional_number(text: Option<&str>, max: u32) -> (r: Option<u32>)
    ensures
        r is None <==> field_value(text_of(text), max as int) is None,
        r matches Some(v) ==> field_value(text_of(text), max as int) == Some(v as int),
{
    match text {
        Some(t) => parse_number(t, max),
        None => None,
    }
}

impl BackupEntry {
    /// Builds the entry for `path` from the texts captured for its fields.
    pub fn from_captures(
        path: &str,
        year: Option<&str>,
        month: Option<&str>,
        day: Option<&str>,
        hour: Option<&str>,
        minute: Option<&str>,
    ) -> (r: Option<BackupEntry>)
        ensures
            entry_view(r) == entry_from_fields(
                path@,
                text_of(year),
                text_of(month),
                text_of(day),
                text_of(hour),
                text_of(minute),
            ),
    {
        let y = match optional_number(year, 0xffff) {
            Some(v) => v,
            None => return None,
        };
        let mo = match optional_number(month, 0xff) {
            Some(v) => v,
            None => return None,
        };
        let d = match optional_number(day, 0xff) {
            Some(v) => v,
            None => return None,
        };
        let h = match optional_number(hour, 0xff) {
            Some(v) => v,
            None => 0,
        };
        let mi = match optional_number(minute, 0xff) {
            Some(v) => v,
            None => 0,
        };
        Some(
            BackupEntry {
                year: y as u16,
                month: mo as u8,
                day: d as u8,
                hour: h as u8,
                minute: mi as u8,
                path: path.to_owned(),
            },
        )
    }

    /// Reads the entry of the file name `path`: `None` when the name fails the
    /// wildcard `pattern` list or the grammar does not yield a timestamp.
    pub fn new(path: &str, pattern: &[String], grammar: &Grammar) -> (r: Option<BackupEntry>)
        ensures
            entry_view(r) == entry_of(texts(pattern@), grammar.source(), path@),
    {
        if !name_passes(pattern, path) {
            return None;
        }
        BackupEntry::from_captures(
            path,
            grammar.capture(path, "year"),
            grammar.capture(path, "month"),
            grammar.capture(path, "day"),
            grammar.capture(path, "hour"),
            grammar.capture(path, "minute"),
        )
    }

    /// The timestamp fields, most significant first.
    pub fn get_ordering_tuple(&self) -> (r: (u16, u8, u8, u8, u8))
        ensures
            r == (self.year, self.month, self.day, self.hour, self.minute),
    {
        (self.year, self.month, self.day, self.hour, self.minute)
    }

    /// The packed bucket key of tier `t`.
    pub fn key(&self, t: Period) -> (r: u64)
        ensures
            r == self@.key(t),
    {
        let y = self.year as u64 * 0x1_0000_0000;
        let m = self.month as u64 * 0x100_0000;
        let d = self.day as u64 * 0x1_0000;
        let h = self.hour as u64 * 0x100;
        match t {
            Period::Years => y,
            Period::Months => y + m,
            Period::Days => y + m + d,
            Period::Hours => y + m + d + h,
            Period::Minutes => y + m + d + h + self.minute as u64,
        }
    }
}

/// The entries that the first `n` of `names` yield, in order; names that fail
/// the filter or the grammar yield none.
pub open spec fn extracted(
    patterns: Seq<Seq<char>>,
    grammar: Seq<char>,
    names: Seq<Seq<char>>,
    n: int,
) -> Seq<EntryView>
    decreases n,
{
    if n <= 0 {
        seq![]
    } else {
        match entry_of(patterns, grammar, names[n - 1]) {
            Some(e) => extracted(patterns, grammar, names, n - 1).push(e),
            None => extracted(patterns, grammar, names, n - 1),
        }
    }
}

} // verus!
