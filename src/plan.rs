use vstd::prelude::*;

use crate::config::Config;
use crate::entry::{extracted, BackupEntry, EntryView};
use crate::filter::texts;
use crate::render::{report, report_text};
use crate::slots::{Period, SlotConfig};

verus! {

/// The meaning of each entry of a sequence.
pub open spec fn views(es: Seq<BackupEntry>) -> Seq<EntryView> {
    es.map_values(|e: BackupEntry| e@)
}

/// `es[j]` is more recent than `es[i]`: its timestamp is later, or the same
/// and `es[j]` comes first.
pub open spec fn more_recent(es: Seq<EntryView>, j: int, i: int) -> bool {
    es[j].stamp() > es[i].stamp() || (es[j].stamp() == es[i].stamp() && j < i)
}

/// `es[i]` represents its bucket of tier `t`: no other entry of that bucket is
/// more recent.
pub open spec fn is_representative(es: Seq<EntryView>, i: int, t: Period) -> bool {
    forall|j: int|
        0 <= j < es.len() && j != i && es[j].key(t) == es[i].key(t) ==> !#[trigger] more_recent(
            es,
            j,
            i,
        )
}

/// How many buckets of tier `t` among the first `n` entries lie above the key
/// `k`, counted by their representatives (each bucket has exactly one).
pub open spec fn buckets_above(es: Seq<EntryView>, t: Period, k: int, n: int) -> nat
    decreases n,
{
    if n <= 0 {
        0
    } else {
        buckets_above(es, t, k, n - 1) + if is_representative(es, n - 1, t) && es[n - 1].key(t)
            > k {
            1nat
        } else {
            0nat
        }
    }
}

/// Tier `t` with `n` slots selects `es[i]`: it represents one of the `n` most
/// recent buckets of the tier.
pub open spec fn selects(es: Seq<EntryView>, i: int, t: Period, n: nat) -> bool {
    is_representative(es, i, t) && buckets_above(es, t, es[i].key(t), es.len() as int) < n
}

pub open spec fn tier_if(b: bool, t: Period) -> Seq<Period> {
    if b {
        seq![t]
    } else {
        seq![]
    }
}

/// The tiers, in the order years to minutes, that select `es[i]` under `slots`.
pub open spec fn tiers_keeping(es: Seq<EntryView>, i: int, slots: SlotConfig) -> Seq<Period> {
    tier_if(selects(es, i, Period::Years, slots.count(Period::Years)), Period::Years) + tier_if(
        selects(es, i, Period::Months, slots.count(Period::Months)),
        Period::Months,
    ) + tier_if(selects(es, i, Period::Days, slots.count(Period::Days)), Period::Days) + tier_if(
        selects(es, i, Period::Hours, slots.count(Period::Hours)),
        Period::Hours,
    ) + tier_if(selects(es, i, Period::Minutes, slots.count(Period::Minutes)), Period::Minutes)
}

/// `es[i]` is kept when at least one tier selects it.
pub open spec fn is_kept(es: Seq<EntryView>, i: int, slots: SlotConfig) -> bool {
    tiers_keeping(es, i, slots).len() > 0
}

/// The names of the kept entries among the first `n`, in input order.
pub open spec fn kept_paths(es: Seq<EntryView>, slots: SlotConfig, n: int) -> Seq<Seq<char>>
    decreases n,
{
    if n <= 0 {
        seq![]
    } else if is_kept(es, n - 1, slots) {
        kept_paths(es, slots, n - 1).push(es[n - 1].path)
    } else {
        kept_paths(es, slots, n - 1)
    }
}

/// The tiers of the kept entries among the first `n`, in input order.
pub open spec fn kept_tiers(es: Seq<EntryView>, slots: SlotConfig, n: int) -> Seq<Seq<Period>>
    decreases n,
{
    if n <= 0 {
        seq![]
    } else if is_kept(es, n - 1, slots) {
        kept_tiers(es, slots, n - 1).push(tiers_keeping(es, n - 1, slots))
    } else {
        kept_tiers(es, slots, n - 1)
    }
}

/// The names of the entries among the first `n` that no tier keeps, in input order.
pub open spec fn removed_paths(es: Seq<EntryView>, slots: SlotConfig, n: int) -> Seq<Seq<char>>
    decreases n,
{
    if n <= 0 {
        seq![]
    } else if is_kept(es, n - 1, slots) {
        removed_paths(es, slots, n - 1)
    } else {
        removed_paths(es, slots, n - 1).push(es[n - 1].path)
    }
}

/// Which files to keep, with the tiers that keep each, and which to remove.
pub struct Plan {
    pub to_keep: Vec<String>,
    pub to_remove: Vec<String>,
    /// The tiers that keep `to_keep[i]`, at index `i`.
    period_map: Vec<Vec<Period>>,
    /// The directory the file names belong to, when the plan was made for one.
    path: Option<String>,
}

impl Plan {
    /// The names of the files to keep.
    pub closed spec fn kept(&self) -> Seq<Seq<char>> {
        texts(self.to_keep@)
    }

    /// The names of the files to remove.
    pub closed spec fn removed(&self) -> Seq<Seq<char>> {
        texts(self.to_remove@)
    }

    /// The tiers that keep each kept file, index for index.
    pub closed spec fn tiers(&self) -> Seq<Seq<Period>> {
        self.period_map@.map_values(|v: Vec<Period>| v@)
    }

    /// The directory the plan was made for, if any.
    pub closed spec fn directory(&self) -> Option<Seq<char>> {
        match self.path {
            Some(p) => Some(p@),
            None => None,
        }
    }

    /// The plan is the one that `slots` gives for the entries `es`.
    pub open spec fn describes(&self, es: Seq<EntryView>, slots: SlotConfig) -> bool {
        &&& self.kept() == kept_paths(es, slots, es.len() as int)
        &&& self.removed() == removed_paths(es, slots, es.len() as int)
        &&& self.tiers() == kept_tiers(es, slots, es.len() as int)
    }
}

/// Marks the representatives of the buckets of tier `t`.
fn representatives(entries: &[BackupEntry], t: Period) -> (r: Vec<bool>)
    ensures
        r@.len() == entries@.len(),
        forall|i: int|
            0 <= i < entries@.len() ==> r@[i] == is_representative(views(entries@), i, t),
{
    let ghost es = views(entries@);
    let n = entries.len();
    let mut r: Vec<bool> = Vec::new();
    let mut i: usize = 0;
    while i < n
        invariant
            n == entries@.len(),
            es == views(entries@),
            i <= n,
            r@.len() == i,
            forall|k: int| 0 <= k < i ==> r@[k] == is_representative(es, k, t),
        decreases n - i,
    {
        let ki = entries[i].key(t);
        let si = entries[i].key(Period::Minutes);
        assert(es[i as int] == entries@[i as int]@);
        let mut rep = true;
        let mut j: usize = 0;
        while j < n
            invariant
                n == entries@.len(),
                es == views(entries@),
                i < n,
                j <= n,
                ki == es[i as int].key(t),
                si == es[i as int].stamp(),
                rep == (forall|m: int|
                    0 <= m < j && m != i && es[m].key(t) == es[i as int].key(t)
                        ==> !#[trigger] more_recent(es, m, i as int)),
            decreases n - j,
        {
            assert(es[j as int] == entries@[j as int]@);
            if j != i && entries[j].key(t) == ki {
                let sj = entries[j].key(Period::Minutes);
                if sj > si || (sj == si && j < i) {
                    assert(more_recent(es, j as int, i as int));
                    rep = false;
                }
            }
            j += 1;
        }
        r.push(rep);
        i += 1;
    }
    r
}

/// Marks the entries that tier `t` selects with `n` slots.
fn selection(entries: &[BackupEntry], t: Period, n: usize) -> (r: Vec<bool>)
    ensures
        r@.len() == entries@.len(),
        forall|i: int|
            0 <= i < entries@.len() ==> r@[i] == selects(views(entries@), i, t, n as nat),
{
    let ghost es = views(entries@);
    let len = entries.len();
    let reps = representatives(entries, t);
    let mut r: Vec<bool> = Vec::new();
    let mut i: usize = 0;
    while i < len
        invariant
            len == entries@.len(),
            es == views(entries@),
            reps@.len() == len,
            forall|k: int| 0 <= k < len ==> reps@[k] == is_representative(es, k, t),
            i <= len,
            r@.len() == i,
            forall|k: int| 0 <= k < i ==> r@[k] == selects(es, k, t, n as nat),
        decreases len - i,
    {
        if reps[i] {
            let ki = entries[i].key(t);
            assert(es[i as int] == entries@[i as int]@);
            let mut above: usize = 0;
            let mut j: usize = 0;
            while j < len
                invariant
                    len == entries@.len(),
                    es == views(entries@),
                    reps@.len() == len,
                    forall|k: int| 0 <= k < len ==> reps@[k] == is_representative(es, k, t),
                    j <= len,
                    above <= j,
                    ki == es[i as int].key(t),
                    above == buckets_above(es, t, ki as int, j as int),
                decreases len - j,
            {
                assert(es[j as int] == entries@[j as int]@);
                if reps[j] && entries[j].key(t) > ki {
                    above += 1;
                }
                j += 1;
            }
            r.push(above < n);
        } else {
            r.push(false);
        }
        i += 1;
    }
    r
}

impl Plan {
    /// Plans the retention of `entries` under `slots`: for every tier, the most
    /// recent entry of each of its newest buckets is kept, the rest is removed.
    pub fn from_entries(entries: &[BackupEntry], slots: &SlotConfig) -> (r: Plan)
        ensures
            r.describes(views(entries@), *slots),
            r.directory() is None,
    {
        let ghost es = views(entries@);
        let years = selection(entries, Period::Years, slots.slot(Period::Years));
        let months = selection(entries, Period::Months, slots.slot(Period::Months));
        let days = selection(entries, Period::Days, slots.slot(Period::Days));
        let hours = selection(entries, Period::Hours, slots.slot(Period::Hours));
        let minutes = selection(entries, Period::Minutes, slots.slot(Period::Minutes));
        let mut to_keep: Vec<String> = Vec::new();
        let mut to_remove: Vec<String> = Vec::new();
        let mut period_map: Vec<Vec<Period>> = Vec::new();
        let n = entries.len();
        let mut i: usize = 0;
        while i < n
            invariant
                n == entries@.len(),
                es == views(entries@),
                i <= n,
                years@.len() == n && months@.len() == n && days@.len() == n && hours@.len() == n
                    && minutes@.len() == n,
                forall|k: int|
                    0 <= k < n ==> years@[k] == selects(
                        es,
                        k,
                        Period::Years,
                        slots.count(Period::Years),
                    ),
                forall|k: int|
                    0 <= k < n ==> months@[k] == selects(
                        es,
                        k,
                        Period::Months,
                        slots.count(Period::Months),
                    ),
                forall|k: int|
                    0 <= k < n ==> days@[k] == selects(es, k, Period::Days, slots.count(Period::Days)),
                forall|k: int|
                    0 <= k < n ==> hours@[k] == selects(
                        es,
                        k,
                        Period::Hours,
                        slots.count(Period::Hours),
                    ),
                forall|k: int|
                    0 <= k < n ==> minutes@[k] == selects(
                        es,
                        k,
                        Period::Minutes,
                        slots.count(Period::Minutes),
                    ),
                texts(to_keep@) == kept_paths(es, *slots, i as int),
                texts(to_remove@) == removed_paths(es, *slots, i as int),
                period_map@.map_values(|v: Vec<Period>| v@) == kept_tiers(es, *slots, i as int),
            decreases n - i,
        {
            let mut tiers: Vec<Period> = Vec::new();
            if years[i] {
                tiers.push(Period::Years);
            }
            if months[i] {
                tiers.push(Period::Months);
            }
            if days[i] {
                tiers.push(Period::Days);
            }
            if hours[i] {
                tiers.push(Period::Hours);
            }
            if minutes[i] {
                tiers.push(Period::Minutes);
            }
            assert(tiers@ =~= tiers_keeping(es, i as int, *slots));
            assert(es[i as int] == entries@[i as int]@);
            let path = entries[i].path.clone();
            if tiers.len() > 0 {
                proof {
                    assert(texts(to_keep@.push(path)) =~= texts(to_keep@).push(path@));
                    assert(period_map@.push(tiers).map_values(|v: Vec<Period>| v@)
                        =~= period_map@.map_values(|v: Vec<Period>| v@).push(tiers@));
                }
                to_keep.push(path);
                period_map.push(tiers);
            } else {
                proof {
                    assert(texts(to_remove@.push(path)) =~= texts(to_remove@).push(path@));
                }
                to_remove.push(path);
            }
            i += 1;
        }
        Plan { to_keep, to_remove, period_map, path: None }
    }
}

impl Plan {
    /// Plans the retention of the files called `entries` under `config`. Names
    /// that fail the wildcard filter or carry no timestamp the grammar can read
    /// are left out of both lists.
    pub fn from(config: &Config, entries: &[String]) -> (r: Plan)
        ensures
            r.describes(
                extracted(
                    config.patterns(),
                    config.grammar_source(),
                    texts(entries@),
                    entries@.len() as int,
                ),
                config.slot_config(),
            ),
            r.directory() is None,
    {
        let ghost names = texts(entries@);
        let pattern = config.pattern();
        let grammar = config.grammar();
        let mut found: Vec<BackupEntry> = Vec::new();
        let mut i: usize = 0;
        while i < entries.len()
            invariant
                i <= entries@.len(),
                names == texts(entries@),
                texts(pattern@) == config.patterns(),
                grammar.source() == config.grammar_source(),
                views(found@) == extracted(
                    config.patterns(),
                    config.grammar_source(),
                    names,
                    i as int,
                ),
            decreases entries.len() - i,
        {
            assert(names[i as int] == entries@[i as int]@);
            match BackupEntry::new(entries[i].as_str(), pattern, grammar) {
                Some(e) => {
                    proof {
                        assert(views(found@.push(e)) =~= views(found@).push(e@));
                    }
                    found.push(e);
                },
                None => {},
            }
            i += 1;
        }
        Plan::from_entries(found.as_slice(), &config.slots())
    }

    /// Records the directory that the file names belong to.
    pub fn set_dir(&mut self, path: &str)
        ensures
            final(self).directory() == Some(path@),
            final(self).kept() == old(self).kept(),
            final(self).removed() == old(self).removed(),
            final(self).tiers() == old(self).tiers(),
    {
        self.path = Some(path.to_owned());
    }

    /// The directory the plan was made for, if one was recorded.
    pub fn dir(&self) -> (r: Option<&str>)
        ensures
            match r {
                Some(s) => self.directory() == Some(s@),
                None => self.directory() is None,
            },
    {
        match &self.path {
            Some(p) => Some(p.as_str()),
            None => None,
        }
    }

    /// The tiers that keep the `i`-th file of `to_keep`.
    pub fn periods(&self, i: usize) -> (r: Option<&Vec<Period>>)
        ensures
            r is Some <==> i < self.tiers().len(),
            r matches Some(v) ==> v@ == self.tiers()[i as int],
    {
        if i < self.period_map.len() {
            Some(&self.period_map[i])
        } else {
            None
        }
    }
}

impl Plan {
    /// The report of the plan: the files to keep, each with the tiers that keep
    /// it, and the files to remove; or a line saying that there is nothing to do.
    pub fn render(&self) -> (r: String)
        ensures
            r@ == report(self.kept(), self.tiers(), self.removed()),
    {
        report_text(self.to_keep.as_slice(), self.period_map.as_slice(), self.to_remove.as_slice())
    }
}

} // verus!
