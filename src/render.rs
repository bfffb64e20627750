use vstd::prelude::*;
use vstd::string::StringExecFns;

use crate::filter::texts;
use crate::slots::Period;

verus! {

/// The character of a decimal digit.
pub open spec fn digit_char(d: int) -> char {
    seq!['0', '1', '2', '3', '4', '5', '6', '7', '8', '9'][d]
}

/// The decimal digits of `n`, without sign or leading zeros.
pub open spec fn decimal_text(n: nat) -> Seq<char>
    decreases n,
{
    if n < 10 {
        seq![digit_char(n as int)]
    } else {
        decimal_text(n / 10).push(digit_char((n % 10) as int))
    }
}

/// The terminal escape sequence that turns text green.
pub open spec fn green_text() -> Seq<char> {
    seq!['\u{1b}', '[', '3', '8', ';', '5', ';', '2', 'm']
}

/// The terminal escape sequence that turns text red.
pub open spec fn red_text() -> Seq<char> {
    seq!['\u{1b}', '[', '3', '8', ';', '5', ';', '1', 'm']
}

/// The terminal escape sequence that resets colors and styles.
pub open spec fn reset_text() -> Seq<char> {
    seq!['\u{1b}', '[', 'm']
}

/// Relies on `termion::color::Green::fg_str`: the escape sequence for a green foreground.
#[verifier::external_body]
fn green() -> (r: &'static str)
    ensures
        r@ == green_text(),
{
    termion::color::Green.fg_str()
}

/// Relies on `termion::color::Red::fg_str`: the escape sequence for a red foreground.
#[verifier::external_body]
fn red() -> (r: &'static str)
    ensures
        r@ == red_text(),
{
    termion::color::Red.fg_str()
}

/// Relies on `termion::style::Reset` as `AsRef<str>`: the escape sequence that resets styles.
#[verifier::external_body]
fn reset() -> (r: &'static str)
    ensures
        r@ == reset_text(),
{
    termion::style::Reset.as_ref()
}

/// Relies on `ToString` for `usize`, which writes the number in decimal.
#[verifier::external_body]
fn number_text(n: usize) -> (r: String)
    ensures
        r@ == decimal_text(n as nat),
{
    n.to_string()
}

/// Tier names joined by commas.
pub open spec fn tier_list(ts: Seq<Period>) -> Seq<char>
    decreases ts.len(),
{
    if ts.len() == 0 {
        seq![]
    } else if ts.len() == 1 {
        ts[0].name()
    } else {
        tier_list(ts.drop_last()) + ","@ + ts.last().name()
    }
}

/// The tiers listed for the `i`-th kept file; none where the list is short.
pub open spec fn tiers_at(tiers: Seq<Seq<Period>>, i: int) -> Seq<Period> {
    if 0 <= i < tiers.len() {
        tiers[i]
    } else {
        seq![]
    }
}

/// The report lines of the first `n` kept files.
pub open spec fn keep_lines(kept: Seq<Seq<char>>, tiers: Seq<Seq<Period>>, n: int) -> Seq<char>
    decreases n,
{
    if n <= 0 {
        seq![]
    } else {
        keep_lines(kept, tiers, n - 1) + "\t\t"@ + green_text() + kept[n - 1] + " "@ + reset_text()
            + "-> ("@ + tier_list(tiers_at(tiers, n - 1)) + ")\n"@
    }
}

/// The report lines of the first `n` removed files.
pub open spec fn remove_lines(removed: Seq<Seq<char>>, n: int) -> Seq<char>
    decreases n,
{
    if n <= 0 {
        seq![]
    } else {
        remove_lines(removed, n - 1) + "\t\t"@ + removed[n - 1] + "\n"@
    }
}

/// The human-readable report of a plan; an empty plan says that there is nothing to do.
pub open spec fn report(kept: Seq<Seq<char>>, tiers: Seq<Seq<Period>>, removed: Seq<Seq<char>>) -> Seq<
    char,
> {
    if kept.len() == 0 && removed.len() == 0 {
        "Plan to:\n\n\tDo nothing: no valid timestamps\n"@
    } else {
        "Plan to:\n\n\t"@ + green_text() + "Keep "@ + decimal_text(kept.len()) + " file(s) matching "@
            + reset_text() + "period(s)\n"@ + keep_lines(kept, tiers, kept.len() as int) + "\n\t"@
            + red_text() + "Remove "@ + decimal_text(removed.len())
            + " file(s) not matching periods\n"@ + remove_lines(removed, removed.len() as int)
    }
}

fn append_tier_list(out: &mut String, ts: &Vec<Period>)
    ensures
        final(out)@ == old(out)@ + tier_list(ts@),
{
    let mut i: usize = 0;
    while i < ts.len()
        invariant
            i <= ts@.len(),
            out@ == old(out)@ + tier_list(ts@.subrange(0, i as int)),
        decreases ts.len() - i,
    {
        let ghost before = out@;
        if i > 0 {
            out.append(",");
        }
        out.append(ts[i].to_string());
        proof {
            let cur = ts@.subrange(0, i + 1);
            assert(cur.drop_last() =~= ts@.subrange(0, i as int));
            if i == 0 {
                assert(out@ =~= old(out)@ + tier_list(cur));
            } else {
                assert(out@ =~= old(out)@ + tier_list(cur));
            }
        }
        i += 1;
    }
    assert(ts@.subrange(0, i as int) =~= ts@);
}

/// Writes the report of a plan with the kept files `kept`, their tiers
/// `tiers` index for index, and the removed files `removed`.
pub(crate) fn report_text(kept: &[String], tiers: &[Vec<Period>], removed: &[String]) -> (r: String)
    ensures
        r@ == report(
            texts(kept@),
            tiers@.map_values(|v: Vec<Period>| v@),
            texts(removed@),
        ),
{
    let mut out = String::new();
    if kept.len() == 0 && removed.len() == 0 {
        out.append("Plan to:\n\n\tDo nothing: no valid timestamps\n");
        return out;
    }
    out.append("Plan to:\n\n\t");
    out.append(green());
    out.append("Keep ");
    out.append(number_text(kept.len()).as_str());
    out.append(" file(s) matching ");
    out.append(reset());
    out.append("period(s)\n");
    let ghost ks = texts(kept@);
    let ghost ts = tiers@.map_values(|v: Vec<Period>| v@);
    let ghost rs = texts(removed@);
    let ghost head = out@;
    let mut i: usize = 0;
    while i < kept.len()
        invariant
            i <= kept@.len(),
            ks == texts(kept@),
            ts == tiers@.map_values(|v: Vec<Period>| v@),
            out@ == head + keep_lines(ks, ts, i as int),
        decreases kept.len() - i,
    {
        let ghost before = out@;
        out.append("\t\t");
        out.append(green());
        out.append(kept[i].as_str());
        out.append(" ");
        out.append(reset());
        out.append("-> (");
        let ghost mid = out@;
        if i < tiers.len() {
            append_tier_list(&mut out, &tiers[i]);
            assert(ts[i as int] == tiers@[i as int]@);
        } else {
            assert(out@ =~= mid + tier_list(tiers_at(ts, i as int)));
        }
        out.append(")\n");
        assert(ks[i as int] == kept@[i as int]@);
        assert(out@ =~= head + keep_lines(ks, ts, i + 1));
        i += 1;
    }
    out.append("\n\t");
    out.append(red());
    out.append("Remove ");
    out.append(number_text(removed.len()).as_str());
    out.append(" file(s) not matching periods\n");
    let ghost middle = out@;
    let mut j: usize = 0;
    while j < removed.len()
        invariant
            j <= removed@.len(),
            rs == texts(removed@),
            out@ == middle + remove_lines(rs, j as int),
        decreases removed.len() - j,
    {
        out.append("\t\t");
        out.append(removed[j].as_str());
        out.append("\n");
        assert(rs[j as int] == removed@[j as int]@);
        assert(out@ =~= middle + remove_lines(rs, j + 1));
        j += 1;
    }
    assert(out@ =~= report(ks, ts, rs));
    out
}

} // verus!
