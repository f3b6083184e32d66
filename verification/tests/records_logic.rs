use rosu_pp_verifier::assert_eq::{assert_eq_option_f64, assert_eq_u32, NotEq, Values};
use rosu_pp_verifier::mods::ArchivedGameMods;
use rosu_pp_verifier::object::{ArchivedSimulateObject, Serializer, SimulateAttributes};
use rosu_pp_verifier::progress::ScoresProgress;
use rosu_pp_verifier::recent_map::RecentBeatmap;
use rosu_pp_verifier::statistics::Statistics;

fn st(perfect: u32, great: u32, miss: u32, large: u32) -> Statistics {
    Statistics { perfect, great, good: 0, ok: 0, meh: 0, miss, large_tick_hit: large, small_tick_hit: 0, slider_tail_hit: 0 }
}

#[test]
fn statistics_comparison() {
    let a = st(0, 10, 1, 5);
    let b = st(3, 10, 1, 0);
    assert!(a.is_eq(&b, 0, false));
    assert!(!a.is_eq(&b, 0, true));
    assert!(!a.is_eq(&b, 1, false));
    assert!(a.is_eq(&a, 2, true));
    assert_eq!(a.is_eq(&b, 3, false), b.is_eq(&a, 3, false));
    assert!(!st(0, 9, 1, 0).is_eq(&st(0, 10, 1, 0), 0, false));
}

#[test]
fn statistics_as_shown() {
    assert_eq!(st(0, 0, 0, 0).describe(), "Statistics");
    assert_eq!(st(0, 5, 1, 0).describe(), "Statistics { great: 5, miss: 1 }");
    let all = Statistics { perfect: 1, great: 2, good: 3, ok: 4, meh: 5, miss: 6, large_tick_hit: 7, small_tick_hit: 8, slider_tail_hit: 9 };
    assert_eq!(
        all.describe(),
        "Statistics { perfect: 1, great: 2, good: 3, ok: 4, meh: 5, miss: 6, large_tick_hit: 7, small_tick_hit: 8, slider_tail_hit: 9 }"
    );
}

#[test]
fn progress_counts() {
    let mut p = ScoresProgress::new(10);
    assert_eq!(p.render(), "Scores: 0/10");
    p.inc();
    p.inc();
    assert_eq!(p.render(), "Scores: 2/10");
    p.reset();
    assert_eq!(p.curr, 0);
    assert_eq!(p.total, 10);
}

#[test]
fn recent_beatmap_cache() {
    let mut cache: RecentBeatmap<String> = RecentBeatmap::new();
    assert_eq!(cache.cached(1), None);
    cache.insert(1, "one".to_string());
    assert_eq!(cache.cached(1), Some(&"one".to_string()));
    assert_eq!(cache.cached(2), None);
    cache.insert(2, "two".to_string());
    assert_eq!(cache.cached(1), None);
    assert_eq!(cache.cached(2), Some(&"two".to_string()));
}

#[test]
fn entry_mode_names_and_counts() {
    let obj = ArchivedSimulateObject { beatmap_id: 5, mods: ArchivedGameMods(Vec::new()), attrs: SimulateAttributes::Catch };
    assert_eq!(obj.mode(), "Catch");
    assert_eq!(SimulateAttributes::Osu.mode_name(), "Osu");
    let mut s = Serializer::new(());
    s.increment_mode(&SimulateAttributes::Osu);
    s.increment_mode(&SimulateAttributes::Osu);
    s.increment_mode(&SimulateAttributes::Mania);
    assert_eq!((s.osu, s.taiko, s.catch, s.mania), (2, 0, 0, 1));
}

#[test]
fn field_mismatches() {
    assert_eq!(assert_eq_u32(&5, 5, "max_combo"), Ok(()));
    assert_eq!(
        assert_eq_u32(&4, 5, "max_combo"),
        Err(NotEq { field: "max_combo", values: Values::U32 { expected: 5, actual: 4 } })
    );
    assert_eq!(assert_eq_option_f64(None, None, false, "f"), Ok(()));
    assert_eq!(assert_eq_option_f64(Some(1), Some(1), true, "f"), Ok(()));
    assert_eq!(
        assert_eq_option_f64(Some(1), Some(2), false, "f"),
        Err(NotEq { field: "f", values: Values::F64 { expected: 2, actual: 1 } })
    );
    assert_eq!(
        assert_eq_option_f64(None, Some(2), true, "f"),
        Err(NotEq { field: "f", values: Values::OptionF64 { expected: Some(2), actual: None } })
    );
    assert_eq!(
        assert_eq_option_f64(Some(3), None, true, "f"),
        Err(NotEq { field: "f", values: Values::OptionF64 { expected: None, actual: Some(3) } })
    );
    assert_eq!(Values::new_f64(1, 2), Values::F64 { expected: 1, actual: 2 });
}

#[test]
fn progress_after_increments() {
    for k in 0..25usize {
        let mut p = ScoresProgress::new(1234);
        for _ in 0..k {
            p.inc();
        }
        assert_eq!(p.render(), format!("Scores: {k}/1234"));
        assert_eq!(p.total, 1234);
    }
    let mut p = ScoresProgress::new(3);
    p.inc();
    p.reset();
    p.inc();
    assert_eq!(p.render(), "Scores: 1/3");
}
