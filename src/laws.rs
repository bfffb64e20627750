//! Properties of retention planning, proved over the meaning of plans.

use vstd::prelude::*;

use crate::entry::{entry_of, extracted, EntryView};
use crate::plan::{
    is_kept, is_representative, kept_paths, kept_tiers, more_recent, removed_paths, selects,
    tiers_keeping, Plan,
};
use crate::slots::{Period, SlotConfig};

verus! {

/// The paths of `es` are pairwise different, as the names in one directory are.
pub open spec fn distinct_paths(es: Seq<EntryView>) -> bool {
    forall|i: int, j: int| 0 <= i < j < es.len() ==> es[i].path != es[j].path
}

proof fn lemma_lengths(es: Seq<EntryView>, slots: SlotConfig, n: int)
    requires
        0 <= n <= es.len(),
    ensures
        kept_paths(es, slots, n).len() + removed_paths(es, slots, n).len() == n,
        kept_tiers(es, slots, n).len() == kept_paths(es, slots, n).len(),
    decreases n,
{
    if n > 0 {
        lemma_lengths(es, slots, n - 1);
    }
}

proof fn lemma_kept_member(es: Seq<EntryView>, slots: SlotConfig, n: int, x: Seq<char>)
    requires
        0 <= n <= es.len(),
    ensures
        kept_paths(es, slots, n).contains(x) <==> exists|i: int|
            0 <= i < n && is_kept(es, i, slots) && es[i].path == x,
    decreases n,
{
    if n > 0 {
        lemma_kept_member(es, slots, n - 1, x);
        let prev = kept_paths(es, slots, n - 1);
        if is_kept(es, n - 1, slots) {
            let cur = prev.push(es[n - 1].path);
            if cur.contains(x) {
                let k = choose|k: int| 0 <= k < cur.len() && cur[k] == x;
                if k == prev.len() {
                    assert(is_kept(es, n - 1, slots) && es[n - 1].path == x);
                } else {
                    assert(prev[k] == x);
                }
            }
            if exists|i: int| 0 <= i < n && is_kept(es, i, slots) && es[i].path == x {
                let i = choose|i: int| 0 <= i < n && is_kept(es, i, slots) && es[i].path == x;
                if i == n - 1 {
                    assert(cur[prev.len() as int] == x);
                } else {
                    let k = choose|k: int| 0 <= k < prev.len() && prev[k] == x;
                    assert(cur[k] == x);
                }
            }
        }
    }
}

proof fn lemma_removed_member(es: Seq<EntryView>, slots: SlotConfig, n: int, x: Seq<char>)
    requires
        0 <= n <= es.len(),
    ensures
        removed_paths(es, slots, n).contains(x) <==> exists|i: int|
            0 <= i < n && !is_kept(es, i, slots) && es[i].path == x,
    decreases n,
{
    if n > 0 {
        lemma_removed_member(es, slots, n - 1, x);
        let prev = removed_paths(es, slots, n - 1);
        if !is_kept(es, n - 1, slots) {
            let cur = prev.push(es[n - 1].path);
            if cur.contains(x) {
                let k = choose|k: int| 0 <= k < cur.len() && cur[k] == x;
                if k == prev.len() {
                    assert(!is_kept(es, n - 1, slots) && es[n - 1].path == x);
                } else {
                    assert(prev[k] == x);
                }
            }
            if exists|i: int| 0 <= i < n && !is_kept(es, i, slots) && es[i].path == x {
                let i = choose|i: int| 0 <= i < n && !is_kept(es, i, slots) && es[i].path == x;
                if i == n - 1 {
                    assert(cur[prev.len() as int] == x);
                } else {
                    let k = choose|k: int| 0 <= k < prev.len() && prev[k] == x;
                    assert(cur[k] == x);
                }
            }
        }
    }
}

/// Every valid entry lands in exactly one of the two lists: the lists are as
/// long together as there are entries, and no name is both kept and removed.
pub proof fn lemma_plan_partitions(p: Plan, es: Seq<EntryView>, slots: SlotConfig)
    requires
        p.describes(es, slots),
        distinct_paths(es),
    ensures
        p.kept().len() + p.removed().len() == es.len(),
        forall|x: Seq<char>| !(p.kept().contains(x) && p.removed().contains(x)),
{
    lemma_lengths(es, slots, es.len() as int);
    assert forall|x: Seq<char>| !(p.kept().contains(x) && p.removed().contains(x)) by {
        lemma_kept_member(es, slots, es.len() as int, x);
        lemma_removed_member(es, slots, es.len() as int, x);
        if p.kept().contains(x) && p.removed().contains(x) {
            let i = choose|i: int| 0 <= i < es.len() && is_kept(es, i, slots) && es[i].path == x;
            let j = choose|j: int|
                0 <= j < es.len() && !is_kept(es, j, slots) && es[j].path == x;
            if i < j {
                assert(es[i].path != es[j].path);
            } else {
                assert(es[j].path != es[i].path);
            }
        }
    }
}

proof fn lemma_zero_tier_absent(es: Seq<EntryView>, slots: SlotConfig, t: Period, n: int)
    requires
        0 <= n <= es.len(),
        slots.count(t) == 0,
    ensures
        forall|k: int|
            0 <= k < kept_tiers(es, slots, n).len() ==> !(#[trigger] kept_tiers(
                es,
                slots,
                n,
            )[k]).contains(t),
    decreases n,
{
    if n > 0 {
        lemma_zero_tier_absent(es, slots, t, n - 1);
        let ts = tiers_keeping(es, n - 1, slots);
        assert(!selects(es, n - 1, t, 0));
        if ts.contains(t) {
            let k = choose|k: int| 0 <= k < ts.len() && ts[k] == t;
            assert(false);
        }
        let prev = kept_tiers(es, slots, n - 1);
        let cur = kept_tiers(es, slots, n);
        assert forall|k: int| 0 <= k < cur.len() implies !(#[trigger] cur[k]).contains(t) by {
            if is_kept(es, n - 1, slots) {
                assert(cur == prev.push(ts));
                if k < prev.len() {
                    assert(cur[k] == prev[k]);
                }
            }
        }
    }
}

/// A tier with no slots keeps nothing: it is named among the tiers of no kept file.
pub proof fn lemma_zero_slots_select_nothing(
    p: Plan,
    es: Seq<EntryView>,
    slots: SlotConfig,
    t: Period,
)
    requires
        p.describes(es, slots),
        slots.count(t) == 0,
    ensures
        forall|k: int| 0 <= k < p.tiers().len() ==> !(#[trigger] p.tiers()[k]).contains(t),
{
    lemma_zero_tier_absent(es, slots, t, es.len() as int);
}

/// More slots never keep less: raising any tier's count keeps every entry
/// that was kept before, so every name kept before is still kept.
pub proof fn lemma_more_slots_keep_more(
    p: Plan,
    q: Plan,
    es: Seq<EntryView>,
    fewer: SlotConfig,
    more: SlotConfig,
)
    requires
        p.describes(es, fewer),
        q.describes(es, more),
        forall|t: Period| fewer.count(t) <= #[trigger] more.count(t),
    ensures
        forall|i: int| 0 <= i < es.len() && is_kept(es, i, fewer) ==> is_kept(es, i, more),
        forall|x: Seq<char>| p.kept().contains(x) ==> q.kept().contains(x),
{
    assert forall|i: int| 0 <= i < es.len() && is_kept(es, i, fewer) implies is_kept(
        es,
        i,
        more,
    ) by {
        assert(fewer.count(Period::Years) <= more.count(Period::Years));
        assert(fewer.count(Period::Months) <= more.count(Period::Months));
        assert(fewer.count(Period::Days) <= more.count(Period::Days));
        assert(fewer.count(Period::Hours) <= more.count(Period::Hours));
        assert(fewer.count(Period::Minutes) <= more.count(Period::Minutes));
    }
    assert forall|x: Seq<char>| p.kept().contains(x) implies q.kept().contains(x) by {
        lemma_kept_member(es, fewer, es.len() as int, x);
        lemma_kept_member(es, more, es.len() as int, x);
    }
}

proof fn lemma_extracted_pass(
    patterns: Seq<Seq<char>>,
    grammar: Seq<char>,
    names: Seq<Seq<char>>,
    n: int,
)
    requires
        0 <= n <= names.len(),
    ensures
        forall|i: int|
            0 <= i < extracted(patterns, grammar, names, n).len() ==> entry_of(
                patterns,
                grammar,
                (#[trigger] extracted(patterns, grammar, names, n)[i]).path,
            ) is Some,
    decreases n,
{
    if n > 0 {
        lemma_extracted_pass(patterns, grammar, names, n - 1);
    }
}

/// A name that the wildcard filter or the grammar rejects is neither kept nor removed.
pub proof fn lemma_rejected_names_untouched(
    p: Plan,
    patterns: Seq<Seq<char>>,
    grammar: Seq<char>,
    names: Seq<Seq<char>>,
    slots: SlotConfig,
    x: Seq<char>,
)
    requires
        p.describes(extracted(patterns, grammar, names, names.len() as int), slots),
        entry_of(patterns, grammar, x) is None,
    ensures
        !p.kept().contains(x),
        !p.removed().contains(x),
{
    let es = extracted(patterns, grammar, names, names.len() as int);
    lemma_extracted_pass(patterns, grammar, names, names.len() as int);
    lemma_kept_member(es, slots, es.len() as int, x);
    lemma_removed_member(es, slots, es.len() as int, x);
    if p.kept().contains(x) {
        let i = choose|i: int| 0 <= i < es.len() && is_kept(es, i, slots) && es[i].path == x;
        assert(entry_of(patterns, grammar, es[i].path) is Some);
    }
    if p.removed().contains(x) {
        let i = choose|i: int| 0 <= i < es.len() && !is_kept(es, i, slots) && es[i].path == x;
        assert(entry_of(patterns, grammar, es[i].path) is Some);
    }
}

/// Planning is a function of the entries and the slots: two plans made from
/// the same ones agree in what they keep, remove, and why.
pub proof fn lemma_plan_deterministic(p: Plan, q: Plan, es: Seq<EntryView>, slots: SlotConfig)
    requires
        p.describes(es, slots),
        q.describes(es, slots),
    ensures
        p.kept() == q.kept(),
        p.removed() == q.removed(),
        p.tiers() == q.tiers(),
{
}

/// The most recent entry with key `k` among the first `n`, or -1 when there is none.
spec fn newest_in_bucket(es: Seq<EntryView>, t: Period, k: int, n: int) -> int
    decreases n,
{
    if n <= 0 {
        -1
    } else {
        let b = newest_in_bucket(es, t, k, n - 1);
        if es[n - 1].key(t) == k && (b < 0 || more_recent(es, n - 1, b)) {
            n - 1
        } else {
            b
        }
    }
}

proof fn lemma_newest_in_bucket(es: Seq<EntryView>, t: Period, k: int, n: int)
    requires
        0 <= n <= es.len(),
    ensures
        ({
            let b = newest_in_bucket(es, t, k, n);
            &&& b < n
            &&& b < 0 ==> forall|j: int| 0 <= j < n ==> es[j].key(t) != k
            &&& b >= 0 ==> es[b].key(t) == k && forall|j: int|
                0 <= j < n && j != b && es[j].key(t) == k ==> !#[trigger] more_recent(es, j, b)
        }),
    decreases n,
{
    if n > 0 {
        lemma_newest_in_bucket(es, t, k, n - 1);
        let b = newest_in_bucket(es, t, k, n - 1);
        if es[n - 1].key(t) == k && (b < 0 || more_recent(es, n - 1, b)) {
            assert forall|j: int|
                0 <= j < n && j != n - 1 && es[j].key(t) == k implies !#[trigger] more_recent(
                es,
                j,
                n - 1,
            ) by {
                if b >= 0 && j != b {
                    assert(!more_recent(es, j, b));
                }
            }
        } else {
            assert forall|j: int|
                0 <= j < n && j != b && es[j].key(t) == k implies !#[trigger] more_recent(
                es,
                j,
                b,
            ) by {
                if j < n - 1 {
                    assert(!more_recent(es, j, b));
                }
            }
        }
    }
}

/// Every bucket of a tier has exactly one representative, the most recent of
/// its entries; so counting representatives counts buckets.
pub proof fn lemma_one_representative_per_bucket(es: Seq<EntryView>, t: Period, i: int)
    requires
        0 <= i < es.len(),
    ensures
        exists|r: int|
            0 <= r < es.len() && es[r].key(t) == es[i].key(t) && is_representative(es, r, t),
        forall|r1: int, r2: int|
            0 <= r1 < es.len() && 0 <= r2 < es.len() && es[r1].key(t) == es[i].key(t)
                && es[r2].key(t) == es[i].key(t) && is_representative(es, r1, t)
                && is_representative(es, r2, t) ==> r1 == r2,
{
    let k = es[i].key(t);
    lemma_newest_in_bucket(es, t, k, es.len() as int);
    let b = newest_in_bucket(es, t, k, es.len() as int);
    assert(is_representative(es, b, t));
    assert forall|r1: int, r2: int|
        0 <= r1 < es.len() && 0 <= r2 < es.len() && es[r1].key(t) == k && es[r2].key(t) == k
            && is_representative(es, r1, t) && is_representative(es, r2, t) implies r1 == r2 by {
        if r1 != r2 {
            assert(!more_recent(es, r2, r1));
            assert(!more_recent(es, r1, r2));
        }
    }
}

} // verus!
