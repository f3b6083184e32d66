//! Hit counts of a score.
use vstd::prelude::*;
use vstd::string::*;

use crate::text::{decimal, join, join_strings, u64_to_string};

verus! {

/// How many hits of each judgement a score has.
#[derive(Clone, Copy, Debug, PartialEq, Eq, Structural)]
pub struct Statistics {
    pub perfect: u32,
    pub great: u32,
    pub good: u32,
    pub ok: u32,
    pub meh: u32,
    pub miss: u32,
    pub large_tick_hit: u32,
    pub small_tick_hit: u32,
    pub slider_tail_hit: u32,
}

/// `name: value` when the value is not zero; nothing otherwise.
pub open spec fn stat_entry(name: Seq<char>, v: u32) -> Seq<Seq<char>> {
    if v > 0 {
        seq![name + ": "@ + decimal(v as nat)]
    } else {
        Seq::empty()
    }
}

/// The shown fields of the statistics, in declaration order.
pub open spec fn stat_entries(s: Statistics) -> Seq<Seq<char>> {
    stat_entry("perfect"@, s.perfect) + stat_entry("great"@, s.great) + stat_entry("good"@, s.good)
        + stat_entry("ok"@, s.ok) + stat_entry("meh"@, s.meh) + stat_entry("miss"@, s.miss)
        + stat_entry("large_tick_hit"@, s.large_tick_hit) + stat_entry(
        "small_tick_hit"@,
        s.small_tick_hit,
    ) + stat_entry("slider_tail_hit"@, s.slider_tail_hit)
}

/// The statistics as shown: the non-zero counts in struct notation.
pub open spec fn stats_text(s: Statistics) -> Seq<char> {
    let e = stat_entries(s);
    if e.len() == 0 {
        "Statistics"@
    } else {
        "Statistics { "@ + join(e, ", "@) + " }"@
    }
}

/// Whether two statistics count as equal: all counts in lazer scores and
/// outside osu!standard; only great, ok, meh and miss in stable osu!standard.
pub open spec fn stats_match(a: Statistics, b: Statistics, mode: u8, lazer: bool) -> bool {
    if mode != 0 || lazer {
        a == b
    } else {
        a.great == b.great && a.ok == b.ok && a.meh == b.meh && a.miss == b.miss
    }
}

fn push_entry(entries: &mut Vec<String>, name: &str, v: u32)
    ensures
        final(entries)@.map_values(|p: String| p@) == old(entries)@.map_values(|p: String| p@)
            + stat_entry(name@, v),
{
    if v > 0 {
        let mut e = String::from_str(name);
        e.append(": ");
        let d = u64_to_string(v as u64);
        e.append(d.as_str());
        entries.push(e);
        assert(entries@.map_values(|p: String| p@) =~= old(entries)@.map_values(|p: String| p@)
            + stat_entry(name@, v));
    } else {
        assert(entries@.map_values(|p: String| p@) =~= old(entries)@.map_values(|p: String| p@)
            + stat_entry(name@, v));
    }
}

impl Statistics {
    /// Compares simulated statistics with stored ones (see `stats_match`).
    pub fn is_eq(&self, other: &Statistics, mode: u8, lazer: bool) -> (r: bool)
        ensures
            r == stats_match(*self, *other, mode, lazer),
    {
        if mode != 0 || lazer {
            return *self == *other;
        }
        self.great == other.great && self.ok == other.ok && self.meh == other.meh && self.miss
            == other.miss
    }

    /// The statistics as shown, e.g. `Statistics { great: 5, miss: 1 }`.
    pub fn describe(&self) -> (r: String)
        ensures
            r@ == stats_text(*self),
    {
        let mut entries: Vec<String> = Vec::new();
        push_entry(&mut entries, "perfect", self.perfect);
        push_entry(&mut entries, "great", self.great);
        push_entry(&mut entries, "good", self.good);
        push_entry(&mut entries, "ok", self.ok);
        push_entry(&mut entries, "meh", self.meh);
        push_entry(&mut entries, "miss", self.miss);
        push_entry(&mut entries, "large_tick_hit", self.large_tick_hit);
        push_entry(&mut entries, "small_tick_hit", self.small_tick_hit);
        push_entry(&mut entries, "slider_tail_hit", self.slider_tail_hit);
        assert(entries@.map_values(|p: String| p@) =~= stat_entries(*self));
        if entries.len() == 0 {
            return String::from_str("Statistics");
        }
        let mut out = String::from_str("Statistics { ");
        let body = join_strings(&entries, ", ");
        out.append(body.as_str());
        out.append(" }");
        out
    }
}


/// Statistics always match themselves, and matching does not depend on which
/// side is simulated and which is stored.
pub proof fn lemma_stats_match_reflexive_symmetric(a: Statistics, b: Statistics, mode: u8, lazer: bool)
    ensures
        stats_match(a, a, mode, lazer),
        stats_match(a, b, mode, lazer) == stats_match(b, a, mode, lazer),
{
}

/// In stable osu!standard, statistics that agree on great, ok, meh and miss
/// match, whatever their other counts.
pub proof fn lemma_stats_match_stable_osu(a: Statistics, b: Statistics)
    requires
        a.great == b.great,
        a.ok == b.ok,
        a.meh == b.meh,
        a.miss == b.miss,
    ensures
        stats_match(a, b, 0, false),
{
}

/// In lazer scores and in every mode other than osu!standard, statistics
/// match exactly when all nine counts are equal; in stable osu!standard,
/// exactly when great, ok, meh and miss are equal.
pub proof fn lemma_stats_match_counts(a: Statistics, b: Statistics, mode: u8, lazer: bool)
    ensures
        (mode != 0 || lazer) ==> (stats_match(a, b, mode, lazer) <==> {
            &&& a.perfect == b.perfect
            &&& a.great == b.great
            &&& a.good == b.good
            &&& a.ok == b.ok
            &&& a.meh == b.meh
            &&& a.miss == b.miss
            &&& a.large_tick_hit == b.large_tick_hit
            &&& a.small_tick_hit == b.small_tick_hit
            &&& a.slider_tail_hit == b.slider_tail_hit
        }),
        (mode == 0 && !lazer) ==> (stats_match(a, b, mode, lazer) <==> {
            &&& a.great == b.great
            &&& a.ok == b.ok
            &&& a.meh == b.meh
            &&& a.miss == b.miss
        }),
{
}

} // verus!
