use rosu_pp_verifier::mode::GameMode;
use rosu_pp_verifier::mods::{ArchivedGameMod, ArchivedGameModSetting, ArchivedGameModSettingValue, ArchivedGameMods};
use rosu_pp_verifier::score::{
    command_line, no_slider_head_accuracy, plan_score, shuffled_indices, simulate_args,
    skip_ignore, slider_end_hits, statistics_verdict, ScoreData, ScoreDetails, ScorePlan,
    StatsVerdict,
};
use rosu_pp_verifier::statistics::Statistics;

fn stats(great: u32, ok: u32, meh: u32, miss: u32) -> Statistics {
    Statistics { perfect: 0, great, good: 0, ok, meh, miss, large_tick_hit: 0, small_tick_hit: 0, slider_tail_hit: 0 }
}

fn score(mode: u8, mods: Vec<ArchivedGameMod>, lazer: bool) -> ScoreData {
    ScoreData {
        id: 1,
        mode,
        map_id: 42,
        combo: 300,
        data: ScoreDetails { mods: ArchivedGameMods(mods), stats: stats(250, 10, 2, 1), max_stats: stats(263, 0, 0, 0) },
        lazer,
        checked: false,
    }
}

fn plain(acronym: &str) -> ArchivedGameMod {
    ArchivedGameMod { acronym: acronym.to_string(), settings: Vec::new() }
}

fn with_setting(acronym: &str, key: &str, value: ArchivedGameModSettingValue) -> ArchivedGameMod {
    ArchivedGameMod { acronym: acronym.to_string(), settings: vec![ArchivedGameModSetting { key: key.to_string(), value }] }
}

#[test]
fn ignored_maps_only_in_standard() {
    let mut s = score(0, Vec::new(), false);
    s.map_id = 1029976;
    assert!(skip_ignore(&s));
    s.map_id = 2573164;
    assert!(skip_ignore(&s));
    s.map_id = 42;
    assert!(!skip_ignore(&s));
    s.map_id = 1029976;
    s.mode = 1;
    assert!(!skip_ignore(&s));
    s.mode = 7;
    assert!(!skip_ignore(&s));
}

#[test]
fn plans_for_scores() {
    let mut s = score(0, Vec::new(), true);
    assert_eq!(plan_score(&s), ScorePlan::Simulate(GameMode::Osu));
    s.checked = true;
    assert_eq!(plan_score(&s), ScorePlan::AlreadyChecked);
    let s = score(2, vec![plain("WU")], false);
    assert_eq!(plan_score(&s), ScorePlan::MarkChecked);
    let s = score(0, vec![plain("RD")], false);
    assert_eq!(plan_score(&s), ScorePlan::SkipRandom);
    let s = score(3, vec![plain("RD")], false);
    assert_eq!(plan_score(&s), ScorePlan::Simulate(GameMode::Mania));
    let s = score(0, vec![plain("CL")], true);
    assert_eq!(plan_score(&s), ScorePlan::SkipClassic);
    let s = score(0, vec![plain("CL")], false);
    assert_eq!(plan_score(&s), ScorePlan::Simulate(GameMode::Osu));
    let s = score(9, Vec::new(), false);
    assert_eq!(plan_score(&s), ScorePlan::InvalidMode(9));
}

#[test]
fn slider_head_accuracy_flag() {
    assert!(no_slider_head_accuracy(&score(0, Vec::new(), false)));
    assert!(!no_slider_head_accuracy(&score(0, Vec::new(), true)));
    assert!(no_slider_head_accuracy(&score(0, vec![plain("CL")], true)));
    let cl_off = with_setting("CL", "no_slider_head_accuracy", ArchivedGameModSettingValue::Bool(false));
    assert!(!no_slider_head_accuracy(&score(0, vec![cl_off], true)));
    let text = with_setting("CL", "no_slider_head_accuracy", ArchivedGameModSettingValue::Str("false".into()));
    assert!(no_slider_head_accuracy(&score(0, vec![text], true)));
}

#[test]
fn slider_end_hits_choice() {
    let mut s = score(0, Vec::new(), true);
    s.data.stats.small_tick_hit = 5;
    s.data.stats.slider_tail_hit = 7;
    assert_eq!(slider_end_hits(&s, true), 5);
    assert_eq!(slider_end_hits(&s, false), 7);
    s.lazer = false;
    assert_eq!(slider_end_hits(&s, true), 7);
}

fn strs(v: &[String]) -> Vec<&str> {
    v.iter().map(String::as_str).collect()
}

#[test]
fn simulate_args_osu_lazer() {
    let mut s = score(0, vec![with_setting("DT", "speed_change", ArchivedGameModSettingValue::Number("1.3".into())), plain("HD")], true);
    s.data.stats.large_tick_hit = 3;
    s.data.max_stats.large_tick_hit = 5;
    s.data.stats.slider_tail_hit = 1;
    s.data.max_stats.slider_tail_hit = 4;
    let args = simulate_args("calc.dll", "maps/42.osu", "97.5", &s, GameMode::Osu);
    assert_eq!(
        strs(&args),
        vec![
            "calc.dll", "simulate", "osu", "maps/42.osu", "--json", "--accuracy", "97.5",
            "--mod", "DT", "--mod-option", "DT_speed_change=1.3", "--mod", "HD",
            "--combo", "300", "--mehs", "2", "--goods", "10", "--misses", "1",
            "--large-tick-misses", "2", "--slider-tail-misses", "3",
        ]
    );
}

#[test]
fn simulate_args_other_modes() {
    let s = score(1, Vec::new(), false);
    assert_eq!(
        strs(&simulate_args("c", "p", "100", &s, GameMode::Taiko)),
        vec!["c", "simulate", "taiko", "p", "--json", "--accuracy", "100", "--goods", "10", "--misses", "1", "--combo", "300"]
    );
    let mut s = score(2, Vec::new(), false);
    s.data.stats.small_tick_hit = 8;
    s.data.stats.large_tick_hit = 9;
    assert_eq!(
        strs(&simulate_args("c", "p", "100", &s, GameMode::Catch)),
        vec!["c", "simulate", "catch", "p", "--json", "--accuracy", "100", "--tiny-droplets", "8", "--droplets", "9", "--misses", "1", "--combo", "300"]
    );
    let mut s = score(3, Vec::new(), false);
    s.data.stats.good = 4;
    assert_eq!(
        strs(&simulate_args("c", "p", "100", &s, GameMode::Mania)),
        vec!["c", "simulate", "mania", "p", "--json", "--accuracy", "100", "--mehs", "2", "--goods", "4", "--oks", "10", "--greats", "250", "--misses", "1"]
    );
    let s = score(0, Vec::new(), false);
    assert_eq!(
        strs(&simulate_args("c", "p", "1", &s, GameMode::Osu)),
        vec!["c", "simulate", "osu", "p", "--json", "--accuracy", "1", "--combo", "300", "--mehs", "2", "--goods", "10", "--misses", "1"]
    );
}

#[test]
fn command_line_shown() {
    let args = vec!["a".to_string(), "b c".to_string()];
    assert_eq!(command_line("dotnet", &args), "dotnet a b c ");
    assert_eq!(command_line("dotnet", &Vec::new()), "dotnet ");
}

#[test]
fn shuffled_indices_visit_each_once() {
    let mut v = shuffled_indices(1000);
    assert_eq!(v.len(), 1000);
    v.sort();
    assert_eq!(v, (0..1000).collect::<Vec<u32>>());
    assert!(shuffled_indices(0).is_empty());
}

#[test]
fn verdict_after_simulation() {
    let mut s = score(0, Vec::new(), false);
    assert_eq!(statistics_verdict(&s, &stats(250, 10, 2, 1)), StatsVerdict::Compare);
    let mut sim = stats(250, 10, 2, 1);
    sim.large_tick_hit = 9;
    // classic osu!standard scores compare only the judgement counts
    assert_eq!(statistics_verdict(&s, &sim), StatsVerdict::Compare);
    s.lazer = true;
    assert_eq!(statistics_verdict(&s, &sim), StatsVerdict::Report);
    assert_eq!(statistics_verdict(&s, &stats(249, 10, 2, 2)), StatsVerdict::Report);
    s.map_id = 1029976;
    assert_eq!(statistics_verdict(&s, &stats(249, 10, 2, 2)), StatsVerdict::Skip);
    assert_eq!(statistics_verdict(&s, &stats(250, 10, 2, 1)), StatsVerdict::Compare);
    s.mode = 1;
    assert_eq!(statistics_verdict(&s, &stats(249, 10, 2, 2)), StatsVerdict::Report);
}
