//! Deciding what to do with a loaded score and how to ask osu-tools about it.
use rand::seq::SliceRandom;
use vstd::prelude::*;
use vstd::string::*;

use crate::mode::GameMode;
use crate::mods::{has_acronym, is_varying_rate, lemma_varying_rate_acronyms, ArchivedGameMod, ArchivedGameModSetting, ArchivedGameMods, ArchivedGameModSettingValue};
use crate::statistics::{stats_match, Statistics};
use crate::text::{decimal, str_eq, u64_to_string};

verus! {

/// Mods and hit counts of a score.
pub struct ScoreDetails {
    pub mods: ArchivedGameMods,
    pub stats: Statistics,
    pub max_stats: Statistics,
}

/// What the comparison reads of a loaded score. Its accuracy, a
/// floating-point number, is formatted by the caller.
pub struct ScoreData {
    pub id: u64,
    pub mode: u8,
    pub map_id: u32,
    pub combo: u32,
    pub data: ScoreDetails,
    pub lazer: bool,
    pub checked: bool,
}

/// Whether scores on this beatmap in this mode are known to disagree and are
/// not reported.
pub open spec fn ignored_map(mode: u8, map_id: u32) -> bool {
    mode == 0 && (map_id == 1029976 || map_id == 1267365 || map_id == 1981090 || map_id == 2052199
        || map_id == 2055234 || map_id == 2087153 || map_id == 2571858 || map_id == 2573161
        || map_id == 2573164)
}

/// Disagreements are left unreported only in osu!standard, and there exactly
/// on the nine beatmaps known to disagree.
pub proof fn lemma_ignored_maps(score: ScoreData)
    ensures
        ignored_map(score.mode, score.map_id) ==> score.mode == 0,
        ignored_map(score.mode, score.map_id) ==> ({
            let known: Seq<u32> = seq![
                2573164u32,
                2573161u32,
                2571858u32,
                2087153u32,
                2055234u32,
                2052199u32,
                1981090u32,
                1267365u32,
                1029976u32,
            ];
            known.contains(score.map_id)
        }),
        score.mode == 0 && seq![
            2573164u32,
            2573161u32,
            2571858u32,
            2087153u32,
            2055234u32,
            2052199u32,
            1981090u32,
            1267365u32,
            1029976u32,
        ].contains(score.map_id) ==> ignored_map(score.mode, score.map_id),
{
    let known: Seq<u32> = seq![
        2573164u32,
        2573161u32,
        2571858u32,
        2087153u32,
        2055234u32,
        2052199u32,
        1981090u32,
        1267365u32,
        1029976u32,
    ];
    if ignored_map(score.mode, score.map_id) {
        let id = score.map_id;
        if id == 2573164 { assert(known[0] == id); }
        else if id == 2573161 { assert(known[1] == id); }
        else if id == 2571858 { assert(known[2] == id); }
        else if id == 2087153 { assert(known[3] == id); }
        else if id == 2055234 { assert(known[4] == id); }
        else if id == 2052199 { assert(known[5] == id); }
        else if id == 1981090 { assert(known[6] == id); }
        else if id == 1267365 { assert(known[7] == id); }
        else { assert(known[8] == id); }
    }
}

/// Whether a disagreement in the statistics of this score is not reported.
pub fn skip_ignore(score: &ScoreData) -> (r: bool)
    ensures
        r == ignored_map(score.mode, score.map_id),
{
    let id = score.map_id;
    match score.mode {
        0 => id == 1029976 || id == 1267365 || id == 1981090 || id == 2052199 || id == 2055234 || id
            == 2087153 || id == 2571858 || id == 2573161 || id == 2573164,
        _ => false,
    }
}

/// What becomes of a score once the simulator's statistics for it are back.
#[derive(Clone, Copy, Debug, PartialEq, Eq)]
pub enum StatsVerdict {
    /// The statistics agree: the attributes are compared next.
    Compare,
    /// They disagree on a beatmap known to disagree: nothing is reported.
    Skip,
    /// They disagree: the score is reported as ignored.
    Report,
}

/// What becomes of `score` given the statistics `simulated` that the
/// simulator gave back for it.
pub fn statistics_verdict(score: &ScoreData, simulated: &Statistics) -> (r: StatsVerdict)
    ensures
        r == (if stats_match(*simulated, score.data.stats, score.mode, score.lazer) {
            StatsVerdict::Compare
        } else if ignored_map(score.mode, score.map_id) {
            StatsVerdict::Skip
        } else {
            StatsVerdict::Report
        }),
{
    if simulated.is_eq(&score.data.stats, score.mode, score.lazer) {
        StatsVerdict::Compare
    } else if skip_ignore(score) {
        StatsVerdict::Skip
    } else {
        StatsVerdict::Report
    }
}

/// What to do with a loaded score.
#[derive(Clone, Copy, Debug, PartialEq, Eq)]
pub enum ScorePlan {
    /// It was compared already.
    AlreadyChecked,
    /// Its clock rate varies, which rosu-pp does not handle: mark it as checked.
    MarkChecked,
    /// osu!standard with the random mod, which rosu-pp does not handle.
    SkipRandom,
    /// osu!standard lazer score with the classic mod, which osu-tools gets wrong.
    SkipClassic,
    /// The mode number is none of the four modes.
    InvalidMode(u8),
    /// Compare it in this mode.
    Simulate(GameMode),
}

/// What to do with a loaded score.
pub open spec fn plan_spec(score: ScoreData) -> ScorePlan {
    let mods = score.data.mods.0@;
    if score.checked {
        ScorePlan::AlreadyChecked
    } else if exists|i: int| 0 <= i < mods.len() && is_varying_rate((#[trigger] mods[i]).acronym@) {
        ScorePlan::MarkChecked
    } else if has_acronym(mods, "RD"@) && score.mode == 0 {
        ScorePlan::SkipRandom
    } else if score.mode == 0 && score.lazer && has_acronym(mods, "CL"@) {
        ScorePlan::SkipClassic
    } else {
        match GameMode::from_number(score.mode) {
            Some(m) => ScorePlan::Simulate(m),
            None => ScorePlan::InvalidMode(score.mode),
        }
    }
}

/// What is done with a score, by its flag, mods and mode: a checked score is
/// left alone; an unchecked one whose clock rate varies (`WU`, `WD`, `AS`) is
/// marked as checked; the random mod is skipped only in osu!standard and the
/// classic mod only in osu!standard lazer scores; any other score is
/// simulated in its own mode, or refused when its mode number names no mode.
pub proof fn lemma_plan_cases(score: ScoreData)
    ensures
        (plan_spec(score) == ScorePlan::AlreadyChecked) <==> score.checked,
        (plan_spec(score) == ScorePlan::MarkChecked) <==> (!score.checked && (has_acronym(
            score.data.mods.0@,
            "WU"@,
        ) || has_acronym(score.data.mods.0@, "WD"@) || has_acronym(score.data.mods.0@, "AS"@))),
        plan_spec(score) == ScorePlan::SkipRandom ==> score.mode == 0 && has_acronym(
            score.data.mods.0@,
            "RD"@,
        ),
        plan_spec(score) == ScorePlan::SkipClassic ==> score.mode == 0 && score.lazer
            && has_acronym(score.data.mods.0@, "CL"@),
        plan_spec(score) matches ScorePlan::Simulate(m) ==> m.number() == score.mode,
        plan_spec(score) matches ScorePlan::InvalidMode(n) ==> n == score.mode && score.mode > 3,
        !score.checked && !has_acronym(score.data.mods.0@, "WU"@) && !has_acronym(
            score.data.mods.0@,
            "WD"@,
        ) && !has_acronym(score.data.mods.0@, "AS"@) ==> {
            &&& 1 <= score.mode <= 3 ==> (plan_spec(score) matches ScorePlan::Simulate(m)
                && m.number() == score.mode)
            &&& score.mode > 3 ==> plan_spec(score) == ScorePlan::InvalidMode(score.mode)
            &&& (score.mode == 0 && has_acronym(score.data.mods.0@, "RD"@)) ==> plan_spec(score)
                == ScorePlan::SkipRandom
            &&& (score.mode == 0 && !has_acronym(score.data.mods.0@, "RD"@) && score.lazer
                && has_acronym(score.data.mods.0@, "CL"@)) ==> plan_spec(score)
                == ScorePlan::SkipClassic
            &&& (score.mode == 0 && !has_acronym(score.data.mods.0@, "RD"@) && !(score.lazer
                && has_acronym(score.data.mods.0@, "CL"@))) ==> plan_spec(score)
                == ScorePlan::Simulate(GameMode::Osu)
        },
{
    lemma_varying_rate_acronyms(score.data.mods.0@);
}

/// What to do with a loaded score.
pub fn plan_score(score: &ScoreData) -> (r: ScorePlan)
    ensures
        r == plan_spec(*score),
{
    if score.checked {
        ScorePlan::AlreadyChecked
    } else if score.data.mods.varying_clock_rate() {
        ScorePlan::MarkChecked
    } else if score.data.mods.contains_random() && score.mode == 0 {
        ScorePlan::SkipRandom
    } else if score.mode == 0 && score.lazer && score.data.mods.contains_classic() {
        ScorePlan::SkipClassic
    } else {
        match GameMode::from_u8(score.mode) {
            Some(m) => ScorePlan::Simulate(m),
            None => ScorePlan::InvalidMode(score.mode),
        }
    }
}

/// The flag after the settings of one mod: a `no_slider_head_accuracy`
/// boolean setting sets it, later ones win.
pub open spec fn nsha_settings(settings: Seq<ArchivedGameModSetting>, state: bool) -> bool
    decreases settings.len(),
{
    if settings.len() == 0 {
        state
    } else {
        let prev = nsha_settings(settings.drop_last(), state);
        let s = settings.last();
        if s.key@ == "no_slider_head_accuracy"@ {
            match s.value {
                ArchivedGameModSettingValue::Bool(b) => b,
                _ => prev,
            }
        } else {
            prev
        }
    }
}

/// The flag after a sequence of mods: the classic mod sets it, then the mod's
/// settings may change it.
pub open spec fn nsha_mods(mods: Seq<ArchivedGameMod>, state: bool) -> bool
    decreases mods.len(),
{
    if mods.len() == 0 {
        state
    } else {
        let prev = nsha_mods(mods.drop_last(), state);
        let m = mods.last();
        nsha_settings(m.settings@, if m.acronym@ == "CL"@ { true } else { prev })
    }
}

/// Whether a setting sets the slider-head flag: a `no_slider_head_accuracy`
/// key with a boolean value.
pub open spec fn sets_nsha(s: ArchivedGameModSetting) -> bool {
    s.key@ == "no_slider_head_accuracy"@ && s.value is Bool
}

/// Settings leave the slider-head flag as it was unless one of them sets it;
/// then the last such setting decides, whatever came before.
pub proof fn lemma_nsha_settings_last_wins(settings: Seq<ArchivedGameModSetting>, state: bool, k: int)
    ensures
        (forall|j: int| 0 <= j < settings.len() ==> !sets_nsha(#[trigger] settings[j]))
            ==> nsha_settings(settings, state) == state,
        (0 <= k < settings.len() && sets_nsha(settings[k]) && (forall|j: int|
            k < j < settings.len() ==> !sets_nsha(#[trigger] settings[j]))) ==> (settings[k].value
            matches ArchivedGameModSettingValue::Bool(b) && nsha_settings(settings, state) == b),
    decreases settings.len(),
{
    if settings.len() > 0 {
        let init = settings.drop_last();
        lemma_nsha_settings_last_wins(init, state, k);
        assert forall|j: int| 0 <= j < init.len() implies init[j] == settings[j] by {}
        if !sets_nsha(settings.last()) {
            if (forall|j: int| 0 <= j < settings.len() ==> !sets_nsha(#[trigger] settings[j])) {
                assert forall|j: int| 0 <= j < init.len() implies !sets_nsha(#[trigger] init[j]) by {
                    assert(init[j] == settings[j]);
                }
            }
            if 0 <= k < settings.len() && sets_nsha(settings[k]) && (forall|j: int|
                k < j < settings.len() ==> !sets_nsha(#[trigger] settings[j])) {
                assert(k != settings.len() - 1);
                assert(init[k] == settings[k]);
                assert forall|j: int| k < j < init.len() implies !sets_nsha(#[trigger] init[j]) by {
                    assert(init[j] == settings[j]);
                }
            }
        } else {
            if (forall|j: int| 0 <= j < settings.len() ==> !sets_nsha(#[trigger] settings[j])) {
                assert(!sets_nsha(settings[settings.len() - 1]));
            }
            if 0 <= k < settings.len() && sets_nsha(settings[k]) && (forall|j: int|
                k < j < settings.len() ==> !sets_nsha(#[trigger] settings[j])) {
                if k < settings.len() - 1 {
                    assert(!sets_nsha(settings[settings.len() - 1]));
                }
            }
        }
    }
}

/// The slider-head flag over mods put one after another is the flag over the
/// later mods, started from the flag over the earlier ones.
pub proof fn lemma_nsha_mods_concat(a: Seq<ArchivedGameMod>, b: Seq<ArchivedGameMod>, state: bool)
    ensures
        nsha_mods(a + b, state) == nsha_mods(b, nsha_mods(a, state)),
    decreases b.len(),
{
    if b.len() == 0 {
        assert(a + b =~= a);
    } else {
        lemma_nsha_mods_concat(a, b.drop_last(), state);
        assert((a + b).drop_last() =~= a + b.drop_last());
        assert((a + b).last() == b.last());
    }
}

/// A mod whose settings do not set the slider-head flag leaves it as it was,
/// unless it is the classic mod, which sets it.
pub proof fn lemma_nsha_single_mod(m: ArchivedGameMod, state: bool)
    requires
        forall|j: int| 0 <= j < m.settings@.len() ==> !sets_nsha(#[trigger] m.settings@[j]),
    ensures
        nsha_mods(seq![m], state) == (m.acronym@ == "CL"@ || state),
{
    let one = seq![m];
    assert(one.drop_last() =~= Seq::<ArchivedGameMod>::empty());
    assert(one.last() == m);
    assert(nsha_mods(one.drop_last(), state) == state);
    let start = if m.acronym@ == "CL"@ {
        true
    } else {
        state
    };
    lemma_nsha_settings_last_wins(m.settings@, start, 0);
    assert(nsha_settings(m.settings@, start) == start);
    assert(nsha_mods(one, state) == nsha_settings(m.settings@, start));
}

/// Whether slider heads are judged without accuracy: true for stable scores,
/// then changed by the mods in order.
pub open spec fn nsha_spec(score: ScoreData) -> bool {
    nsha_mods(score.data.mods.0@, !score.lazer)
}

/// Whether slider heads are judged without accuracy (see `nsha_spec`).
pub fn no_slider_head_accuracy(score: &ScoreData) -> (r: bool)
    ensures
        r == nsha_spec(*score),
{
    let mods = &score.data.mods.0;
    let n = mods.len();
    let mut state = !score.lazer;
    let mut i: usize = 0;
    while i < n
        invariant
            n == mods@.len(),
            *mods == score.data.mods.0,
            i <= n,
            state == nsha_mods(mods@.take(i as int), !score.lazer),
        decreases n - i,
    {
        let m = &mods[i];
        assert(mods@.take(i + 1).drop_last() =~= mods@.take(i as int));
        if str_eq(m.acronym.as_str(), "CL") {
            state = true;
        }
        let k = m.settings.len();
        let ghost start = state;
        let mut j: usize = 0;
        while j < k
            invariant
                k == m.settings@.len(),
                j <= k,
                state == nsha_settings(m.settings@.take(j as int), start),
            decreases k - j,
        {
            let s = &m.settings[j];
            assert(m.settings@.take(j + 1).drop_last() =~= m.settings@.take(j as int));
            if str_eq(s.key.as_str(), "no_slider_head_accuracy") {
                match s.value {
                    ArchivedGameModSettingValue::Bool(b) => {
                        state = b;
                    },
                    _ => {},
                }
            }
            j = j + 1;
        }
        assert(m.settings@.take(k as int) =~= m.settings@);
        i = i + 1;
    }
    assert(mods@.take(n as int) =~= mods@);
    state
}

/// The slider end hits handed to rosu-pp for an osu!standard score.
pub fn slider_end_hits(score: &ScoreData, nsha: bool) -> (r: u32)
    ensures
        r == if score.lazer && nsha {
            score.data.stats.small_tick_hit
        } else {
            score.data.stats.slider_tail_hit
        },
{
    if score.lazer && nsha {
        score.data.stats.small_tick_hit
    } else {
        score.data.stats.slider_tail_hit
    }
}

/// The `--mod-option` arguments of the settings of the mod `acr`.
pub open spec fn setting_args(acr: Seq<char>, settings: Seq<ArchivedGameModSetting>) -> Seq<Seq<char>>
    decreases settings.len(),
{
    if settings.len() == 0 {
        Seq::empty()
    } else {
        let s = settings.last();
        setting_args(acr, settings.drop_last()) + seq![
            "--mod-option"@,
            acr + "_"@ + s.key@ + "="@ + s.value.text(),
        ]
    }
}

/// The `--mod` and `--mod-option` arguments of a sequence of mods.
pub open spec fn mod_args(mods: Seq<ArchivedGameMod>) -> Seq<Seq<char>>
    decreases mods.len(),
{
    if mods.len() == 0 {
        Seq::empty()
    } else {
        let m = mods.last();
        mod_args(mods.drop_last()) + seq!["--mod"@, m.acronym@] + setting_args(m.acronym@, m.settings@)
    }
}

/// Each setting of a mod gives its own `--mod-option` argument, in order:
/// entry `2k` is the flag and entry `2k + 1` is `acr_key=value` of setting `k`.
pub proof fn lemma_setting_args_each(acr: Seq<char>, settings: Seq<ArchivedGameModSetting>)
    ensures
        setting_args(acr, settings).len() == 2 * settings.len(),
        forall|k: int|
            #![trigger settings[k]]
            0 <= k < settings.len() ==> setting_args(acr, settings)[2 * k] == "--mod-option"@
                && setting_args(acr, settings)[2 * k + 1] == acr + "_"@ + settings[k].key@ + "="@
                + settings[k].value.text(),
    decreases settings.len(),
{
    if settings.len() > 0 {
        let init = settings.drop_last();
        lemma_setting_args_each(acr, init);
        assert forall|k: int|
            #![trigger settings[k]]
            0 <= k < settings.len() implies setting_args(acr, settings)[2 * k] == "--mod-option"@
                && setting_args(acr, settings)[2 * k + 1] == acr + "_"@ + settings[k].key@ + "="@
                + settings[k].value.text() by {
            if k < settings.len() - 1 {
                assert(init[k] == settings[k]);
            }
        }
    }
}

/// How many settings the mods have in all.
pub open spec fn settings_total(mods: Seq<ArchivedGameMod>) -> nat
    decreases mods.len(),
{
    if mods.len() == 0 {
        0
    } else {
        settings_total(mods.drop_last()) + mods.last().settings@.len()
    }
}

/// The arguments of mods put one after another are those of each, one after
/// the other; one mod gives `--mod`, its acronym, then the arguments of its
/// settings; and there are two entries per mod and two per setting.
pub proof fn lemma_mod_args_concat(a: Seq<ArchivedGameMod>, b: Seq<ArchivedGameMod>)
    ensures
        mod_args(a + b) == mod_args(a) + mod_args(b),
        mod_args(a).len() == 2 * a.len() + 2 * settings_total(a),
        a.len() == 1 ==> mod_args(a) == seq!["--mod"@, a[0].acronym@] + setting_args(
            a[0].acronym@,
            a[0].settings@,
        ),
    decreases b.len(),
{
    lemma_mod_args_len(a);
    if a.len() == 1 {
        assert(a.drop_last() =~= Seq::<ArchivedGameMod>::empty());
        assert(mod_args(a.drop_last()) =~= Seq::<Seq<char>>::empty());
        assert(mod_args(a) =~= seq!["--mod"@, a[0].acronym@] + setting_args(
            a[0].acronym@,
            a[0].settings@,
        ));
    }
    if b.len() == 0 {
        assert(a + b =~= a);
        assert(mod_args(a) + mod_args(b) =~= mod_args(a));
    } else {
        lemma_mod_args_concat(a, b.drop_last());
        assert((a + b).drop_last() =~= a + b.drop_last());
        assert((a + b).last() == b.last());
        assert(mod_args(a + b) =~= mod_args(a) + mod_args(b));
    }
}

proof fn lemma_mod_args_len(a: Seq<ArchivedGameMod>)
    ensures
        mod_args(a).len() == 2 * a.len() + 2 * settings_total(a),
    decreases a.len(),
{
    if a.len() > 0 {
        lemma_mod_args_len(a.drop_last());
        lemma_setting_args_each(a.last().acronym@, a.last().settings@);
    }
}

/// The decimal text of a hit count.
pub open spec fn num(v: u32) -> Seq<char> {
    decimal(v as nat)
}

/// Whether the count differences that an osu!standard lazer score needs do not underflow.
pub open spec fn miss_counts_defined(score: ScoreData) -> bool {
    let s = score.data.stats;
    let m = score.data.max_stats;
    score.mode == 0 && score.lazer ==> {
        &&& s.large_tick_hit <= m.large_tick_hit
        &&& if nsha_spec(score) {
            s.small_tick_hit <= m.small_tick_hit
        } else {
            s.slider_tail_hit <= m.slider_tail_hit
        }
    }
}

/// The arguments that describe the score's hits in `mode`.
pub open spec fn mode_args(score: ScoreData, mode: GameMode) -> Seq<Seq<char>> {
    let s = score.data.stats;
    let m = score.data.max_stats;
    match mode {
        GameMode::Osu => {
            let base = seq![
                "--combo"@,
                num(score.combo),
                "--mehs"@,
                num(s.meh),
                "--goods"@,
                num(s.ok),
                "--misses"@,
                num(s.miss),
            ];
            if score.lazer {
                base + seq![
                    "--large-tick-misses"@,
                    decimal((m.large_tick_hit - s.large_tick_hit) as nat),
                    "--slider-tail-misses"@,
                    if nsha_spec(score) {
                        decimal((m.small_tick_hit - s.small_tick_hit) as nat)
                    } else {
                        decimal((m.slider_tail_hit - s.slider_tail_hit) as nat)
                    },
                ]
            } else {
                base
            }
        },
        GameMode::Taiko => seq![
            "--goods"@,
            num(s.ok),
            "--misses"@,
            num(s.miss),
            "--combo"@,
            num(score.combo),
        ],
        GameMode::Catch => seq![
            "--tiny-droplets"@,
            num(s.small_tick_hit),
            "--droplets"@,
            num(s.large_tick_hit),
            "--misses"@,
            num(s.miss),
            "--combo"@,
            num(score.combo),
        ],
        GameMode::Mania => seq![
            "--mehs"@,
            num(s.meh),
            "--goods"@,
            num(s.good),
            "--oks"@,
            num(s.ok),
            "--greats"@,
            num(s.great),
            "--misses"@,
            num(s.miss),
        ],
    }
}

/// The value given for `flag` among flag/value pairs, looking from position
/// `i` on: the entry after the first pair whose flag it is.
pub open spec fn flag_value_from(args: Seq<Seq<char>>, flag: Seq<char>, i: nat) -> Option<Seq<char>>
    decreases args.len() - i,
{
    if i + 1 >= args.len() {
        None
    } else if args[i as int] == flag {
        Some(args[i + 1int])
    } else {
        flag_value_from(args, flag, i + 2)
    }
}

/// The value given for `flag` among flag/value pairs.
pub open spec fn flag_value(args: Seq<Seq<char>>, flag: Seq<char>) -> Option<Seq<char>> {
    flag_value_from(args, flag, 0)
}

/// What osu-tools is told of a score's hits in each mode: every flag is given
/// the count it names, and nothing else is given. In osu!standard, lazer
/// scores add the large tick misses, and the slider tail misses counted on
/// small ticks when slider heads are judged without accuracy, else on slider
/// tails.
pub proof fn lemma_mode_args_flags(score: ScoreData)
    ensures
        ({
            let a = mode_args(score, GameMode::Taiko);
            let s = score.data.stats;
            &&& a.len() == 6
            &&& flag_value(a, "--goods"@) == Some(num(s.ok))
            &&& flag_value(a, "--misses"@) == Some(num(s.miss))
            &&& flag_value(a, "--combo"@) == Some(num(score.combo))
        }),
        ({
            let a = mode_args(score, GameMode::Catch);
            let s = score.data.stats;
            &&& a.len() == 8
            &&& flag_value(a, "--tiny-droplets"@) == Some(num(s.small_tick_hit))
            &&& flag_value(a, "--droplets"@) == Some(num(s.large_tick_hit))
            &&& flag_value(a, "--misses"@) == Some(num(s.miss))
            &&& flag_value(a, "--combo"@) == Some(num(score.combo))
        }),
        ({
            let a = mode_args(score, GameMode::Mania);
            let s = score.data.stats;
            &&& a.len() == 10
            &&& flag_value(a, "--mehs"@) == Some(num(s.meh))
            &&& flag_value(a, "--goods"@) == Some(num(s.good))
            &&& flag_value(a, "--oks"@) == Some(num(s.ok))
            &&& flag_value(a, "--greats"@) == Some(num(s.great))
            &&& flag_value(a, "--misses"@) == Some(num(s.miss))
        }),
        ({
            let a = mode_args(score, GameMode::Osu);
            let s = score.data.stats;
            let m = score.data.max_stats;
            &&& a.len() == if score.lazer { 12int } else { 8int }
            &&& flag_value(a, "--combo"@) == Some(num(score.combo))
            &&& flag_value(a, "--mehs"@) == Some(num(s.meh))
            &&& flag_value(a, "--goods"@) == Some(num(s.ok))
            &&& flag_value(a, "--misses"@) == Some(num(s.miss))
            &&& score.lazer ==> flag_value(a, "--large-tick-misses"@) == Some(
                decimal((m.large_tick_hit - s.large_tick_hit) as nat),
            )
            &&& score.lazer ==> flag_value(a, "--slider-tail-misses"@) == Some(
                if nsha_spec(score) {
                    decimal((m.small_tick_hit - s.small_tick_hit) as nat)
                } else {
                    decimal((m.slider_tail_hit - s.slider_tail_hit) as nat)
                },
            )
        }),
{
    reveal_strlit("--combo");
    reveal_strlit("--mehs");
    reveal_strlit("--goods");
    reveal_strlit("--misses");
    reveal_strlit("--large-tick-misses");
    reveal_strlit("--slider-tail-misses");
    reveal_strlit("--tiny-droplets");
    reveal_strlit("--droplets");
    reveal_strlit("--oks");
    reveal_strlit("--greats");
    assert("--combo"@.len() != "--mehs"@.len());
    assert("--combo"@[2] != "--goods"@[2]);
    assert("--combo"@.len() != "--misses"@.len());
    assert("--combo"@.len() != "--large-tick-misses"@.len());
    assert("--combo"@.len() != "--slider-tail-misses"@.len());
    assert("--combo"@.len() != "--tiny-droplets"@.len());
    assert("--combo"@.len() != "--droplets"@.len());
    assert("--combo"@.len() != "--oks"@.len());
    assert("--combo"@.len() != "--greats"@.len());
    assert("--mehs"@.len() != "--goods"@.len());
    assert("--mehs"@.len() != "--misses"@.len());
    assert("--mehs"@.len() != "--large-tick-misses"@.len());
    assert("--mehs"@.len() != "--slider-tail-misses"@.len());
    assert("--mehs"@.len() != "--tiny-droplets"@.len());
    assert("--mehs"@.len() != "--droplets"@.len());
    assert("--mehs"@.len() != "--oks"@.len());
    assert("--mehs"@.len() != "--greats"@.len());
    assert("--goods"@.len() != "--misses"@.len());
    assert("--goods"@.len() != "--large-tick-misses"@.len());
    assert("--goods"@.len() != "--slider-tail-misses"@.len());
    assert("--goods"@.len() != "--tiny-droplets"@.len());
    assert("--goods"@.len() != "--droplets"@.len());
    assert("--goods"@.len() != "--oks"@.len());
    assert("--goods"@.len() != "--greats"@.len());
    assert("--misses"@.len() != "--large-tick-misses"@.len());
    assert("--misses"@.len() != "--slider-tail-misses"@.len());
    assert("--misses"@.len() != "--tiny-droplets"@.len());
    assert("--misses"@.len() != "--droplets"@.len());
    assert("--misses"@.len() != "--oks"@.len());
    assert("--misses"@[2] != "--greats"@[2]);
    assert("--large-tick-misses"@.len() != "--slider-tail-misses"@.len());
    assert("--large-tick-misses"@.len() != "--tiny-droplets"@.len());
    assert("--large-tick-misses"@.len() != "--droplets"@.len());
    assert("--large-tick-misses"@.len() != "--oks"@.len());
    assert("--large-tick-misses"@.len() != "--greats"@.len());
    assert("--slider-tail-misses"@.len() != "--tiny-droplets"@.len());
    assert("--slider-tail-misses"@.len() != "--droplets"@.len());
    assert("--slider-tail-misses"@.len() != "--oks"@.len());
    assert("--slider-tail-misses"@.len() != "--greats"@.len());
    assert("--tiny-droplets"@.len() != "--droplets"@.len());
    assert("--tiny-droplets"@.len() != "--oks"@.len());
    assert("--tiny-droplets"@.len() != "--greats"@.len());
    assert("--droplets"@.len() != "--oks"@.len());
    assert("--droplets"@.len() != "--greats"@.len());
    assert("--oks"@.len() != "--greats"@.len());
    reveal_with_fuel(flag_value_from, 7);
}

/// The arguments of the osu-tools simulation of a score.
pub open spec fn simulate_args_spec(
    perf_calc: Seq<char>,
    map_path: Seq<char>,
    accuracy: Seq<char>,
    score: ScoreData,
    mode: GameMode,
) -> Seq<Seq<char>> {
    seq![perf_calc, "simulate"@, mode.arg_spec(), map_path, "--json"@, "--accuracy"@, accuracy]
        + mod_args(score.data.mods.0@) + mode_args(score, mode)
}

/// The simulation of a score is asked with the program, `simulate`, the
/// mode's name, the map, `--json`, `--accuracy` and the accuracy; then the
/// arguments of each mod, in stored order; then the hit counts of the mode.
pub proof fn lemma_simulate_args_parts(
    perf_calc: Seq<char>,
    map_path: Seq<char>,
    accuracy: Seq<char>,
    score: ScoreData,
    mode: GameMode,
)
    ensures
        ({
            let a = simulate_args_spec(perf_calc, map_path, accuracy, score, mode);
            let k = mod_args(score.data.mods.0@).len() as int;
            &&& a.len() == 7 + k + mode_args(score, mode).len()
            &&& a[0] == perf_calc
            &&& a[1] == "simulate"@
            &&& a[2] == mode.arg_spec()
            &&& a[3] == map_path
            &&& a[4] == "--json"@
            &&& a[5] == "--accuracy"@
            &&& a[6] == accuracy
            &&& a.subrange(7, 7 + k) == mod_args(score.data.mods.0@)
            &&& a.subrange(7 + k, a.len() as int) == mode_args(score, mode)
        }),
{
    let a = simulate_args_spec(perf_calc, map_path, accuracy, score, mode);
    let k = mod_args(score.data.mods.0@).len() as int;
    assert(a.subrange(7, 7 + k) =~= mod_args(score.data.mods.0@));
    assert(a.subrange(7 + k, a.len() as int) =~= mode_args(score, mode));
}

/// The views of a list of strings.
pub open spec fn views(v: Seq<String>) -> Seq<Seq<char>> {
    v.map_values(|s: String| s@)
}

fn push_arg(args: &mut Vec<String>, a: &str)
    ensures
        views(final(args)@) == views(old(args)@).push(a@),
{
    args.push(String::from_str(a));
    assert(views(args@) =~= views(old(args)@).push(a@));
}

fn push_num(args: &mut Vec<String>, v: u32)
    ensures
        views(final(args)@) == views(old(args)@).push(num(v)),
{
    args.push(u64_to_string(v as u64));
    assert(views(args@) =~= views(old(args)@).push(num(v)));
}

fn push_mod_args(args: &mut Vec<String>, mods: &ArchivedGameMods)
    ensures
        views(final(args)@) == views(old(args)@) + mod_args(mods.0@),
{
    let n = mods.0.len();
    let mut i: usize = 0;
    assert(views(args@) =~= views(args@) + mod_args(mods.0@.take(0)));
    while i < n
        invariant
            n == mods.0@.len(),
            i <= n,
            views(args@) == views(old(args)@) + mod_args(mods.0@.take(i as int)),
        decreases n - i,
    {
        let m = &mods.0[i];
        let ghost before = views(args@);
        push_arg(args, "--mod");
        push_arg(args, m.acronym.as_str());
        let k = m.settings.len();
        let mut j: usize = 0;
        assert(setting_args(m.acronym@, m.settings@.take(0)) =~= Seq::<Seq<char>>::empty());
        while j < k
            invariant
                k == m.settings@.len(),
                j <= k,
                views(args@) == before + seq!["--mod"@, m.acronym@] + setting_args(
                    m.acronym@,
                    m.settings@.take(j as int),
                ),
            decreases k - j,
        {
            let s = &m.settings[j];
            push_arg(args, "--mod-option");
            let mut opt = String::from_str(m.acronym.as_str());
            opt.append("_");
            opt.append(s.key.as_str());
            opt.append("=");
            opt.append(s.value.as_str());
            let ghost prev = views(args@);
            let ghost opt_view = opt@;
            args.push(opt);
            proof {
                assert(views(args@) =~= prev.push(opt_view));
                let t = m.settings@.take(j + 1);
                assert(t.drop_last() =~= m.settings@.take(j as int));
                assert(t.last() == m.settings@[j as int]);
                assert(views(args@) =~= before + seq!["--mod"@, m.acronym@] + setting_args(
                    m.acronym@,
                    t,
                ));
            }
            j = j + 1;
        }
        proof {
            assert(m.settings@.take(k as int) =~= m.settings@);
            let t = mods.0@.take(i + 1);
            assert(t.drop_last() =~= mods.0@.take(i as int));
            assert(t.last() == mods.0@[i as int]);
            assert(views(args@) =~= views(old(args)@) + mod_args(t));
        }
        i = i + 1;
    }
    assert(mods.0@.take(n as int) =~= mods.0@);
}

/// The arguments of the osu-tools simulation of a score in `mode`; the
/// accuracy is given as text.
#[verifier::rlimit(40)]
pub fn simulate_args(
    perf_calc: &str,
    map_path: &str,
    accuracy: &str,
    score: &ScoreData,
    mode: GameMode,
) -> (r: Vec<String>)
    requires
        mode == GameMode::Osu ==> miss_counts_defined(*score),
        GameMode::from_number(score.mode) == Some(mode),
    ensures
        views(r@) == simulate_args_spec(perf_calc@, map_path@, accuracy@, *score, mode),
{
    let mut args: Vec<String> = Vec::new();
    push_arg(&mut args, perf_calc);
    push_arg(&mut args, "simulate");
    push_arg(&mut args, mode.arg());
    push_arg(&mut args, map_path);
    push_arg(&mut args, "--json");
    push_arg(&mut args, "--accuracy");
    push_arg(&mut args, accuracy);
    let ghost head = views(args@);
    assert(head =~= seq![perf_calc@, "simulate"@, mode.arg_spec(), map_path@, "--json"@, "--accuracy"@, accuracy@]);
    push_mod_args(&mut args, &score.data.mods);
    let ghost with_mods = views(args@);
    let s = &score.data.stats;
    let m = &score.data.max_stats;
    match mode {
        GameMode::Osu => {
            push_arg(&mut args, "--combo");
            push_num(&mut args, score.combo);
            push_arg(&mut args, "--mehs");
            push_num(&mut args, s.meh);
            push_arg(&mut args, "--goods");
            push_num(&mut args, s.ok);
            push_arg(&mut args, "--misses");
            push_num(&mut args, s.miss);
            if score.lazer {
                push_arg(&mut args, "--large-tick-misses");
                push_num(&mut args, m.large_tick_hit - s.large_tick_hit);
                push_arg(&mut args, "--slider-tail-misses");
                if no_slider_head_accuracy(score) {
                    push_num(&mut args, m.small_tick_hit - s.small_tick_hit);
                } else {
                    push_num(&mut args, m.slider_tail_hit - s.slider_tail_hit);
                }
            }
        },
        GameMode::Taiko => {
            push_arg(&mut args, "--goods");
            push_num(&mut args, s.ok);
            push_arg(&mut args, "--misses");
            push_num(&mut args, s.miss);
            push_arg(&mut args, "--combo");
            push_num(&mut args, score.combo);
        },
        GameMode::Catch => {
            push_arg(&mut args, "--tiny-droplets");
            push_num(&mut args, s.small_tick_hit);
            push_arg(&mut args, "--droplets");
            push_num(&mut args, s.large_tick_hit);
            push_arg(&mut args, "--misses");
            push_num(&mut args, s.miss);
            push_arg(&mut args, "--combo");
            push_num(&mut args, score.combo);
        },
        GameMode::Mania => {
            push_arg(&mut args, "--mehs");
            push_num(&mut args, s.meh);
            push_arg(&mut args, "--goods");
            push_num(&mut args, s.good);
            push_arg(&mut args, "--oks");
            push_num(&mut args, s.ok);
            push_arg(&mut args, "--greats");
            push_num(&mut args, s.great);
            push_arg(&mut args, "--misses");
            push_num(&mut args, s.miss);
        },
    }
    assert(views(args@) =~= with_mods + mode_args(*score, mode));
    args
}

/// A command line as shown: the program and each argument, each followed by a space.
pub open spec fn spaced(args: Seq<Seq<char>>) -> Seq<char>
    decreases args.len(),
{
    if args.len() == 0 {
        Seq::empty()
    } else {
        spaced(args.drop_last()) + args.last() + " "@
    }
}

/// A command line as shown: the program and each argument, each followed by a space.
pub fn command_line(program: &str, args: &Vec<String>) -> (r: String)
    ensures
        r@ == program@ + " "@ + spaced(views(args@)),
{
    let mut out = String::from_str(program);
    out.append(" ");
    let n = args.len();
    let mut i: usize = 0;
    while i < n
        invariant
            n == args@.len(),
            i <= n,
            out@ == program@ + " "@ + spaced(views(args@).take(i as int)),
        decreases n - i,
    {
        out.append(args[i].as_str());
        out.append(" ");
        proof {
            let t = views(args@).take(i + 1);
            assert(t.drop_last() =~= views(args@).take(i as int));
            assert(t.last() == args@[i as int]@);
            assert(out@ =~= program@ + " "@ + spaced(t));
        }
        i = i + 1;
    }
    assert(views(args@).take(n as int) =~= views(args@));
    out
}


/// Shuffles `v` in place with `rand::seq::SliceRandom::shuffle` and the
/// thread-local generator (`rand::thread_rng`). The order that comes out is
/// chance; what is claimed is that the items are the same, as swaps keep them.
#[verifier::external_body]
fn shuffle_in_place(v: &mut Vec<u32>)
    ensures
        final(v)@.to_multiset() == old(v)@.to_multiset(),
{
    v.shuffle(&mut rand::thread_rng());
}

/// The indices `0..count`, in order.
pub open spec fn index_range(count: u32) -> Seq<u32> {
    Seq::new(count as nat, |i: int| i as u32)
}

/// Each of the indices `0..count` occurs once in them, and nothing else occurs.
pub proof fn lemma_index_range_each_once(count: u32, k: u32)
    ensures
        index_range(count).to_multiset().count(k) == if k < count {
            1nat
        } else {
            0nat
        },
    decreases count,
{
    broadcast use vstd::seq_lib::group_to_multiset_ensures;

    if count == 0 {
        assert(index_range(0).len() == 0);
        assert(!index_range(0).contains(k));
    } else {
        let c = (count - 1) as u32;
        lemma_index_range_each_once(c, k);
        assert(index_range(count) =~= index_range(c).push(c));
    }
}

/// The indices `0..count` in a random order: each exactly once.
pub fn shuffled_indices(count: u32) -> (r: Vec<u32>)
    ensures
        r@.to_multiset() == index_range(count).to_multiset(),
        forall|k: u32| #[trigger] r@.to_multiset().count(k) == if k < count {
            1nat
        } else {
            0nat
        },
{
    let mut v: Vec<u32> = Vec::new();
    let mut i: u32 = 0;
    while i < count
        invariant
            i <= count,
            v@ == index_range(i),
        decreases count - i,
    {
        v.push(i);
        assert(v@ =~= index_range((i + 1) as u32));
        i = i + 1;
    }
    shuffle_in_place(&mut v);
    assert forall|k: u32| #[trigger] v@.to_multiset().count(k) == if k < count {
        1nat
    } else {
        0nat
    } by {
        lemma_index_range_each_once(count, k);
    }
    v
}

} // verus!
