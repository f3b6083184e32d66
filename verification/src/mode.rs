//! The four osu! game modes.
use vstd::prelude::*;

verus! {

/// A game mode, numbered 0 to 3 as in score data.
#[derive(Clone, Copy, Debug, PartialEq, Eq, Structural)]
pub enum GameMode {
    Osu,
    Taiko,
    Catch,
    Mania,
}

/// Marker for osu!standard.
pub struct Osu;

/// Marker for osu!taiko.
pub struct Taiko;

/// Marker for osu!catch.
pub struct Catch;

/// Marker for osu!mania.
pub struct Mania;

impl Osu {
    pub fn mode() -> (r: GameMode)
        ensures
            r == GameMode::Osu,
    {
        GameMode::Osu
    }
}

impl Taiko {
    pub fn mode() -> (r: GameMode)
        ensures
            r == GameMode::Taiko,
    {
        GameMode::Taiko
    }
}

impl Catch {
    pub fn mode() -> (r: GameMode)
        ensures
            r == GameMode::Catch,
    {
        GameMode::Catch
    }
}

impl Mania {
    pub fn mode() -> (r: GameMode)
        ensures
            r == GameMode::Mania,
    {
        GameMode::Mania
    }
}

impl GameMode {
    /// The number of the mode in score data.
    pub open spec fn number(self) -> u8 {
        match self {
            GameMode::Osu => 0,
            GameMode::Taiko => 1,
            GameMode::Catch => 2,
            GameMode::Mania => 3,
        }
    }

    /// The mode with the number `n`, if there is one.
    pub open spec fn from_number(n: u8) -> Option<GameMode> {
        if n == 0 {
            Some(GameMode::Osu)
        } else if n == 1 {
            Some(GameMode::Taiko)
        } else if n == 2 {
            Some(GameMode::Catch)
        } else if n == 3 {
            Some(GameMode::Mania)
        } else {
            None
        }
    }

    /// The mode with the number `n`, if there is one.
    pub fn from_u8(n: u8) -> (r: Option<GameMode>)
        ensures
            r == GameMode::from_number(n),
    {
        match n {
            0 => Some(GameMode::Osu),
            1 => Some(GameMode::Taiko),
            2 => Some(GameMode::Catch),
            3 => Some(GameMode::Mania),
            _ => None,
        }
    }

    /// The number of the mode in score data.
    pub fn to_u8(&self) -> (r: u8)
        ensures
            r == self.number(),
    {
        match self {
            GameMode::Osu => 0,
            GameMode::Taiko => 1,
            GameMode::Catch => 2,
            GameMode::Mania => 3,
        }
    }

    /// Lower-case name, as osu-tools takes it on its command line.
    pub open spec fn arg_spec(self) -> Seq<char> {
        match self {
            GameMode::Osu => "osu"@,
            GameMode::Taiko => "taiko"@,
            GameMode::Catch => "catch"@,
            GameMode::Mania => "mania"@,
        }
    }

    /// Lower-case name, as osu-tools takes it on its command line.
    pub fn arg(&self) -> (r: &'static str)
        ensures
            r@ == self.arg_spec(),
    {
        match self {
            GameMode::Osu => "osu",
            GameMode::Taiko => "taiko",
            GameMode::Catch => "catch",
            GameMode::Mania => "mania",
        }
    }

    /// The mod combinations that attributes are computed for in this mode.
    pub open spec fn mod_combos_spec(self) -> Seq<Seq<char>> {
        match self {
            GameMode::Osu => seq![
                "NM"@,
                "HD"@,
                "EZHD"@,
                "HR"@,
                "DT"@,
                "FL"@,
                "HDFL"@,
                "HRDT"@,
                "HDDTFL"@,
            ],
            GameMode::Taiko => seq!["NM"@, "HD"@, "HR"@, "DT"@],
            GameMode::Catch => seq!["NM"@, "HD"@, "HR"@, "HDHR"@, "EZ"@, "DT"@],
            GameMode::Mania => seq!["NM"@, "EZ"@, "DT"@],
        }
    }

    /// The mod combinations that attributes are computed for in this mode.
    pub fn mod_combos(&self) -> (r: Vec<&'static str>)
        ensures
            r@.map_values(|s: &str| s@) == self.mod_combos_spec(),
    {
        let r = match self {
            GameMode::Osu => vec!["NM", "HD", "EZHD", "HR", "DT", "FL", "HDFL", "HRDT", "HDDTFL"],
            GameMode::Taiko => vec!["NM", "HD", "HR", "DT"],
            GameMode::Catch => vec!["NM", "HD", "HR", "HDHR", "EZ", "DT"],
            GameMode::Mania => vec!["NM", "EZ", "DT"],
        };
        assert(r@.map_values(|s: &str| s@) =~= self.mod_combos_spec());
        r
    }

    /// Name of the environment variable that holds the path of this mode's score dump.
    pub open spec fn sql_env_var_spec(self) -> Seq<char> {
        match self {
            GameMode::Osu => "SCORES_SQL_OSU"@,
            GameMode::Taiko => "SCORES_SQL_TAIKO"@,
            GameMode::Catch => "SCORES_SQL_CATCH"@,
            GameMode::Mania => "SCORES_SQL_MANIA"@,
        }
    }

    /// Name of the environment variable that holds the path of this mode's score dump.
    pub fn sql_env_var(&self) -> (r: &'static str)
        ensures
            r@ == self.sql_env_var_spec(),
    {
        match self {
            GameMode::Osu => "SCORES_SQL_OSU",
            GameMode::Taiko => "SCORES_SQL_TAIKO",
            GameMode::Catch => "SCORES_SQL_CATCH",
            GameMode::Mania => "SCORES_SQL_MANIA",
        }
    }
}

/// Mode numbers and modes correspond one to one: 0 to 3 name the four
/// modes, every other number names none.
pub proof fn lemma_mode_numbers(m: GameMode, n: u8)
    ensures
        m.number() <= 3,
        GameMode::from_number(m.number()) == Some(m),
        GameMode::from_number(n) matches Some(k) ==> k.number() == n,
        GameMode::from_number(n) is None <==> n > 3,
{
}

/// Different modes have different names on the command line and different
/// score dump variables.
pub proof fn lemma_mode_names_distinct(a: GameMode, b: GameMode)
    ensures
        a != b ==> a.arg_spec() != b.arg_spec(),
        a != b ==> a.sql_env_var_spec() != b.sql_env_var_spec(),
{
    reveal_strlit("osu");
    reveal_strlit("taiko");
    reveal_strlit("catch");
    reveal_strlit("mania");
    reveal_strlit("SCORES_SQL_OSU");
    reveal_strlit("SCORES_SQL_TAIKO");
    reveal_strlit("SCORES_SQL_CATCH");
    reveal_strlit("SCORES_SQL_MANIA");
    assert("taiko"@[0] != "catch"@[0]);
    assert("taiko"@[0] != "mania"@[0]);
    assert("catch"@[0] != "mania"@[0]);
    assert("osu"@.len() != "taiko"@.len());
    assert("osu"@.len() != "catch"@.len());
    assert("osu"@.len() != "mania"@.len());
    assert("SCORES_SQL_TAIKO"@[11] != "SCORES_SQL_CATCH"@[11]);
    assert("SCORES_SQL_TAIKO"@[11] != "SCORES_SQL_MANIA"@[11]);
    assert("SCORES_SQL_CATCH"@[11] != "SCORES_SQL_MANIA"@[11]);
    assert("SCORES_SQL_OSU"@.len() != "SCORES_SQL_TAIKO"@.len());
    assert("SCORES_SQL_OSU"@.len() != "SCORES_SQL_CATCH"@.len());
    assert("SCORES_SQL_OSU"@.len() != "SCORES_SQL_MANIA"@.len());
}

} // verus!
