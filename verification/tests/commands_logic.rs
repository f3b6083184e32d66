use rosu_pp_verifier::commands::{
    classify_row, is_insert_line, is_lazer_build, map_path, modes_to_load, modes_to_simulate,
    mods_label, parse_map_id, prepare_line, recalc_args, score_rows, should_recalc,
    simulate_all_args, split_scores, RowFailure,
};
use rosu_pp_verifier::mode::{Catch, GameMode, Mania, Osu, Taiko};
use rosu_pp_verifier::mods::{ArchivedGameMod, ArchivedGameMods};

#[test]
fn map_ids_from_paths() {
    assert_eq!(parse_map_id("maps/123.osu"), Some(123));
    assert_eq!(parse_map_id("/a/b/-7.osu"), Some(-7));
    assert_eq!(parse_map_id("maps/123.osu.osu"), Some(123));
    assert_eq!(parse_map_id("maps/abc.osu"), None);
    assert_eq!(parse_map_id("maps/.osu"), None);
    assert_eq!(parse_map_id("456"), Some(456));
}

#[test]
fn map_path_roundtrip() {
    assert_eq!(map_path("maps/", 123), "maps/123.osu");
    assert_eq!(map_path("", -5), "-5.osu");
    for id in [0i32, 1, -1, 1029976, i32::MAX, i32::MIN] {
        assert_eq!(parse_map_id(&map_path("dir/", id as i64)), Some(id));
        assert_eq!(parse_map_id(&map_path("", id as i64)), Some(id));
    }
}

#[test]
fn simulate_all_args_for_mode() {
    let mods = GameMode::Taiko.mod_combos();
    let args = simulate_all_args("calc", GameMode::Taiko.arg(), "m/1.osu", &mods).unwrap();
    assert_eq!(
        args,
        vec!["calc", "simulate", "taiko", "m/1.osu", "--json", "--mod", "NM", "--mod", "HD", "--mod", "HR", "--mod", "DT"]
    );
    assert_eq!(simulate_all_args("calc", "osu", "p", &Vec::new()), None);
}

#[test]
fn modes_and_combos() {
    assert_eq!(modes_to_simulate(GameMode::Osu), vec![GameMode::Osu, GameMode::Taiko, GameMode::Catch, GameMode::Mania]);
    assert_eq!(modes_to_simulate(GameMode::Mania), vec![GameMode::Mania]);
    assert_eq!(GameMode::Osu.mod_combos(), vec!["NM", "HD", "EZHD", "HR", "DT", "FL", "HDFL", "HRDT", "HDDTFL"]);
    assert_eq!(GameMode::Catch.mod_combos(), vec!["NM", "HD", "HR", "HDHR", "EZ", "DT"]);
    assert_eq!(GameMode::Mania.mod_combos(), vec!["NM", "EZ", "DT"]);
    assert_eq!(Osu::mode(), GameMode::Osu);
    assert_eq!(Taiko::mode(), GameMode::Taiko);
    assert_eq!(Catch::mode(), GameMode::Catch);
    assert_eq!(Mania::mode(), GameMode::Mania);
    assert_eq!(GameMode::from_u8(2), Some(GameMode::Catch));
    assert_eq!(GameMode::from_u8(4), None);
    assert_eq!(GameMode::Mania.to_u8(), 3);
    assert_eq!(GameMode::Catch.sql_env_var(), "SCORES_SQL_CATCH");
}

#[test]
fn recalculation_inputs() {
    let none = ArchivedGameMods(Vec::new());
    assert_eq!(mods_label(&none), "NM");
    let m = ArchivedGameMods(vec![
        ArchivedGameMod { acronym: "HD".into(), settings: Vec::new() },
        ArchivedGameMod { acronym: "DT".into(), settings: Vec::new() },
    ]);
    assert_eq!(mods_label(&m), "HDDT");
    assert_eq!(
        recalc_args("calc", "Osu", "p", "HDDT"),
        vec!["calc", "simulate", "Osu", "p", "--json", "--no-classic", "--mod", "HDDT"]
    );
    assert!(!should_recalc(123));
}

#[test]
fn score_dump_lines() {
    let line = "INSERT INTO `scores` VALUES (1,'a'),(2,'b');\n";
    assert!(is_insert_line(line));
    assert!(!is_insert_line("CREATE TABLE x"));
    let scores = prepare_line(line).unwrap();
    assert_eq!(scores, "1,'a'),(2,'b'");
    assert_eq!(split_scores(scores), vec!["1,'a'", "2,'b'"]);
    assert_eq!(prepare_line("INSERT INTO `scores` VALUES 1);\n"), None);
    assert_eq!(prepare_line("INSERT INTO `scores` VALUES (1);"), None);
    assert_eq!(prepare_line("nothing"), None);
}

#[test]
fn modes_to_load_choice() {
    assert_eq!(modes_to_load(None), Some(vec![GameMode::Osu, GameMode::Taiko, GameMode::Catch, GameMode::Mania]));
    assert_eq!(modes_to_load(Some(1)), Some(vec![GameMode::Taiko]));
    assert_eq!(modes_to_load(Some(4)), None);
}

#[test]
fn lazer_build_ids() {
    assert!(!is_lazer_build("NULL"));
    assert!(is_lazer_build("7"));
    assert!(is_lazer_build(""));
}

fn fields(items: &[&str]) -> Vec<String> {
    items.iter().map(|s| s.to_string()).collect()
}

#[test]
fn score_rows_read_quoted_fields() {
    let (rows, failure) = score_rows("1,'a,b',3),(4,'it''s'");
    assert_eq!(rows, vec![fields(&["1", "a,b", "3"]), fields(&["4", "it's"])]);
    assert_eq!(failure, None);
}

#[test]
fn score_rows_stop_at_empty_score() {
    let (rows, failure) = score_rows("7,8),(),(9");
    assert_eq!(rows, vec![fields(&["7", "8"])]);
    assert_eq!(failure, Some(RowFailure::NoRecord(String::new())));
    let (rows, failure) = score_rows("");
    assert!(rows.is_empty());
    assert_eq!(failure, Some(RowFailure::NoRecord(String::new())));
}

#[test]
fn row_classification() {
    assert_eq!(classify_row("x", Some(Ok(fields(&["1", "2"])))), Ok(fields(&["1", "2"])));
    assert_eq!(classify_row("x", None), Err(RowFailure::NoRecord("x".to_string())));
    assert_eq!(
        classify_row("y", Some(Err("bad".to_string()))),
        Err(RowFailure::Unreadable("y".to_string(), "bad".to_string()))
    );
}
