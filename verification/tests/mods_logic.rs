use rosu_pp_verifier::mod_table::type_lookup;
use rosu_pp_verifier::mode::GameMode;
use rosu_pp_verifier::mods::{
    setting_fault, ArchivedGameMod, ArchivedGameModSetting, ArchivedGameModSettingValue,
    ArchivedGameMods, ConvertError, SettingFault,
};

fn setting(key: &str, value: ArchivedGameModSettingValue) -> ArchivedGameModSetting {
    ArchivedGameModSetting { key: key.to_string(), value }
}

fn gamemod(acronym: &str, settings: Vec<ArchivedGameModSetting>) -> ArchivedGameMod {
    ArchivedGameMod { acronym: acronym.to_string(), settings }
}

fn mods(list: &[&str]) -> ArchivedGameMods {
    ArchivedGameMods(list.iter().map(|a| gamemod(a, Vec::new())).collect())
}

#[test]
fn setting_value_text() {
    assert_eq!(ArchivedGameModSettingValue::Number("1.25".into()).as_str(), "1.25");
    assert_eq!(ArchivedGameModSettingValue::Bool(true).as_str(), "true");
    assert_eq!(ArchivedGameModSettingValue::Bool(false).as_str(), "false");
    assert_eq!(ArchivedGameModSettingValue::Str("abc".into()).as_str(), "abc");
}

#[test]
fn legacy_bits_of_mods() {
    assert_eq!(mods(&[]).bits(), 0);
    assert_eq!(mods(&["HD", "DT"]).bits(), 8 | 64);
    assert_eq!(mods(&["NF", "EZ", "TD", "HD", "HR", "DT", "HT", "FL", "SO"]).bits(), 1 + 2 + 4 + 8 + 16 + 64 + 256 + 1024 + 4096);
    assert_eq!(gamemod("CL", Vec::new()).bits(), 0);
    assert_eq!(mods(&["HD", "CL"]).bits(), 8);
}

#[test]
fn legacy_bits_do_not_depend_on_order() {
    assert_eq!(mods(&["HR", "HD", "FL"]).bits(), mods(&["FL", "HD", "HR"]).bits());
}

#[test]
fn acronyms_and_membership() {
    let m = mods(&["HD", "CL", "RD"]);
    assert_eq!(m.acronyms(), vec!["HD", "CL", "RD"]);
    assert_eq!(m.iter().len(), 3);
    assert!(m.contains_acronym("CL"));
    assert!(m.contains_classic());
    assert!(m.contains_random());
    assert!(!m.contains_acronym("DT"));
    assert!(!mods(&["HD"]).contains_classic());
    assert!(!mods(&["HD"]).contains_random());
}

#[test]
fn varying_clock_rate_mods() {
    assert!(mods(&["HD", "WU"]).varying_clock_rate());
    assert!(mods(&["WD"]).varying_clock_rate());
    assert!(mods(&["AS"]).varying_clock_rate());
    assert!(!mods(&["DT", "HT"]).varying_clock_rate());
    assert!(!mods(&[]).varying_clock_rate());
}

#[test]
fn mods_as_shown() {
    assert_eq!(mods(&[]).describe(), "NM");
    assert_eq!(mods(&["HD", "DT"]).describe(), "HDDT");
    let m = ArchivedGameMods(vec![
        gamemod(
            "DT",
            vec![
                setting("speed_change", ArchivedGameModSettingValue::Number("1.3".into())),
                setting("adjust_pitch", ArchivedGameModSettingValue::Bool(true)),
            ],
        ),
        gamemod("HD", Vec::new()),
    ]);
    assert_eq!(m.describe(), "DT[speed_change=1.3, adjust_pitch=true]HD");
    assert_eq!(m.0[0].describe(), "DT[speed_change=1.3, adjust_pitch=true]");
}

#[test]
fn settings_table_lookup() {
    assert_eq!(type_lookup("DoubleTimeOsu", "speed_change"), Some(true));
    assert_eq!(type_lookup("DoubleTimeOsu", "scale"), Some(false));
    assert_eq!(type_lookup("CoverMania", "coverage"), Some(true));
    assert_eq!(type_lookup("DifficultyAdjustTaiko", "scroll_speed"), Some(true));
    assert_eq!(type_lookup("DifficultyAdjustCatch", "hard_rock_offsets"), Some(true));
    assert_eq!(type_lookup("DifficultyAdjustOsu", "hard_rock_offsets"), Some(false));
    assert_eq!(type_lookup("HiddenMania", "coverage"), None);
    assert_eq!(type_lookup("NoFailOsu", "anything"), None);
}

#[test]
fn setting_fault_cases() {
    let dt = Some("DoubleTimeOsu".to_string());
    assert_eq!(setting_fault(&dt, "speed_change"), SettingFault::Accepted);
    assert_eq!(setting_fault(&dt, "nope"), SettingFault::UnknownSetting("DoubleTimeOsu".to_string()));
    assert_eq!(setting_fault(&Some("NoFailOsu".to_string()), "x"), SettingFault::NotHandled);
    assert_eq!(setting_fault(&None, "x"), SettingFault::UnknownAcronym);
    assert_eq!(setting_fault(&None, "speed_change"), SettingFault::UnknownAcronym);
}

#[test]
fn convert_check_accepts_known_settings() {
    let m = ArchivedGameMods(vec![
        gamemod("HD", Vec::new()),
        gamemod("DT", vec![setting("speed_change", ArchivedGameModSettingValue::Number("1.2".into()))]),
        gamemod("XX", Vec::new()),
    ]);
    assert_eq!(m.check_convert(GameMode::Osu), Ok(()));
}

#[test]
fn convert_check_unknown_acronym() {
    let m = ArchivedGameMods(vec![
        gamemod("HD", Vec::new()),
        gamemod("XX", vec![setting("a", ArchivedGameModSettingValue::Bool(true))]),
    ]);
    assert_eq!(
        m.check_convert(GameMode::Osu),
        Err(ConvertError { mod_index: 1, setting_index: 0, fault: SettingFault::UnknownAcronym })
    );
    // Cover exists only in mania.
    let m = ArchivedGameMods(vec![gamemod("CO", vec![setting("coverage", ArchivedGameModSettingValue::Number("0.5".into()))])]);
    assert_eq!(
        m.check_convert(GameMode::Osu),
        Err(ConvertError { mod_index: 0, setting_index: 0, fault: SettingFault::UnknownAcronym })
    );
    assert_eq!(m.check_convert(GameMode::Mania), Ok(()));
}

#[test]
fn convert_check_unknown_setting_and_not_handled() {
    let m = ArchivedGameMods(vec![gamemod(
        "DT",
        vec![
            setting("speed_change", ArchivedGameModSettingValue::Number("1.2".into())),
            setting("bogus", ArchivedGameModSettingValue::Bool(false)),
        ],
    )]);
    assert_eq!(
        m.check_convert(GameMode::Taiko),
        Err(ConvertError { mod_index: 0, setting_index: 1, fault: SettingFault::UnknownSetting("DoubleTimeTaiko".to_string()) })
    );
    let m = ArchivedGameMods(vec![gamemod("NF", vec![setting("x", ArchivedGameModSettingValue::Str("y".into()))])]);
    assert_eq!(
        m.check_convert(GameMode::Catch),
        Err(ConvertError { mod_index: 0, setting_index: 0, fault: SettingFault::NotHandled })
    );
}

#[test]
fn convert_check_names_mod_types() {
    let m = ArchivedGameMods(vec![gamemod("NC", vec![setting("speed_change", ArchivedGameModSettingValue::Number("1.5".into()))])]);
    assert_eq!(m.check_convert(GameMode::Mania), Ok(()));
    let m = ArchivedGameMods(vec![gamemod("HD", vec![setting("coverage", ArchivedGameModSettingValue::Number("0.5".into()))])]);
    assert_eq!(
        m.check_convert(GameMode::Mania),
        Err(ConvertError { mod_index: 0, setting_index: 0, fault: SettingFault::NotHandled })
    );
    let m = ArchivedGameMods(vec![gamemod("DA", vec![setting("scroll_speed", ArchivedGameModSettingValue::Number("2".into()))])]);
    assert_eq!(
        m.check_convert(GameMode::Catch),
        Err(ConvertError { mod_index: 0, setting_index: 0, fault: SettingFault::UnknownSetting("DifficultyAdjustCatch".to_string()) })
    );
    assert_eq!(m.check_convert(GameMode::Taiko), Ok(()));
}
