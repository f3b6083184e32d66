//! Mods of a score as they are stored: acronyms with optional settings.
use vstd::prelude::*;
use vstd::string::*;

use crate::mod_table::{handled_type, type_lookup, type_setting_allowed};
use crate::mode::GameMode;
use crate::text::str_eq;

verus! {

/// The value of a mod setting. Numbers are kept as the text they were read from.
pub enum ArchivedGameModSettingValue {
    Number(String),
    Bool(bool),
    Str(String),
}

/// One `key = value` setting of a mod.
pub struct ArchivedGameModSetting {
    pub key: String,
    pub value: ArchivedGameModSettingValue,
}

/// A mod: its acronym and its settings, in stored order.
pub struct ArchivedGameMod {
    pub acronym: String,
    pub settings: Vec<ArchivedGameModSetting>,
}

/// All mods of a score, in stored order.
pub struct ArchivedGameMods(pub Vec<ArchivedGameMod>);

impl ArchivedGameModSettingValue {
    /// The text of a setting value.
    pub open spec fn text(self) -> Seq<char> {
        match self {
            ArchivedGameModSettingValue::Number(n) => n@,
            ArchivedGameModSettingValue::Bool(b) => if b {
                "true"@
            } else {
                "false"@
            },
            ArchivedGameModSettingValue::Str(s) => s@,
        }
    }

    /// The text of a setting value: the number as read, `true`/`false`, or the string.
    pub fn as_str(&self) -> (r: &str)
        ensures
            r@ == self.text(),
    {
        match self {
            ArchivedGameModSettingValue::Number(n) => n.as_str(),
            ArchivedGameModSettingValue::Bool(true) => "true",
            ArchivedGameModSettingValue::Bool(false) => "false",
            ArchivedGameModSettingValue::Str(s) => s.as_str(),
        }
    }
}

/// The legacy bit of a mod acronym; 0 for acronyms without one here.
pub open spec fn acronym_bits(acr: Seq<char>) -> u32 {
    if acr == "NF"@ {
        1
    } else if acr == "EZ"@ {
        2
    } else if acr == "TD"@ {
        4
    } else if acr == "HD"@ {
        8
    } else if acr == "HR"@ {
        16
    } else if acr == "DT"@ {
        64
    } else if acr == "HT"@ {
        256
    } else if acr == "FL"@ {
        1024
    } else if acr == "SO"@ {
        4096
    } else {
        0
    }
}

/// The legacy bits of a sequence of mods, or-ed together.
pub open spec fn mods_bits(mods: Seq<ArchivedGameMod>) -> u32
    decreases mods.len(),
{
    if mods.len() == 0 {
        0
    } else {
        mods_bits(mods.drop_last()) | acronym_bits(mods.last().acronym@)
    }
}

/// `key=value` as a setting is shown.
pub open spec fn setting_text(s: ArchivedGameModSetting) -> Seq<char> {
    s.key@ + "="@ + s.value.text()
}

/// The settings shown one after another, separated by `, `.
pub open spec fn settings_text(ss: Seq<ArchivedGameModSetting>) -> Seq<char>
    decreases ss.len(),
{
    if ss.len() == 0 {
        Seq::empty()
    } else if ss.len() == 1 {
        setting_text(ss[0])
    } else {
        settings_text(ss.drop_last()) + ", "@ + setting_text(ss.last())
    }
}

/// A mod as shown: the acronym, then its settings in brackets when it has any.
pub open spec fn mod_text(m: ArchivedGameMod) -> Seq<char> {
    if m.settings@.len() == 0 {
        m.acronym@
    } else {
        m.acronym@ + "["@ + settings_text(m.settings@) + "]"@
    }
}

/// The shown mods one after another.
pub open spec fn mods_concat(mods: Seq<ArchivedGameMod>) -> Seq<char>
    decreases mods.len(),
{
    if mods.len() == 0 {
        Seq::empty()
    } else {
        mods_concat(mods.drop_last()) + mod_text(mods.last())
    }
}

/// Mods as shown: `NM` for none, else each mod one after another.
pub open spec fn mods_text(mods: Seq<ArchivedGameMod>) -> Seq<char> {
    if mods.len() == 0 {
        "NM"@
    } else {
        mods_concat(mods)
    }
}

/// Whether one of the mods has the acronym `acr`.
pub open spec fn has_acronym(mods: Seq<ArchivedGameMod>, acr: Seq<char>) -> bool {
    exists|i: int| 0 <= i < mods.len() && (#[trigger] mods[i]).acronym@ == acr
}

/// Whether an acronym names a mod that changes the clock rate during play.
pub open spec fn is_varying_rate(acr: Seq<char>) -> bool {
    acr == "WU"@ || acr == "WD"@ || acr == "AS"@
}

impl ArchivedGameMod {
    /// The legacy bit of this mod; 0 when it has none here.
    pub fn bits(&self) -> (r: u32)
        ensures
            r == acronym_bits(self.acronym@),
    {
        let a = self.acronym.as_str();
        if str_eq(a, "NF") {
            1
        } else if str_eq(a, "EZ") {
            2
        } else if str_eq(a, "TD") {
            4
        } else if str_eq(a, "HD") {
            8
        } else if str_eq(a, "HR") {
            16
        } else if str_eq(a, "DT") {
            64
        } else if str_eq(a, "HT") {
            256
        } else if str_eq(a, "FL") {
            1024
        } else if str_eq(a, "SO") {
            4096
        } else {
            0
        }
    }

    /// The mod as shown, e.g. `DT[speed_change=1.2, adjust_pitch=true]`.
    pub fn describe(&self) -> (r: String)
        ensures
            r@ == mod_text(*self),
    {
        let mut out = String::from_str(self.acronym.as_str());
        let n = self.settings.len();
        if n == 0 {
            return out;
        }
        out.append("[");
        let mut i: usize = 0;
        while i < n
            invariant
                n == self.settings@.len(),
                0 < n,
                i <= n,
                out@ == self.acronym@ + "["@ + settings_text(self.settings@.take(i as int)),
            decreases n - i,
        {
            let ghost before = out@;
            if i > 0 {
                out.append(", ");
            }
            let setting = &self.settings[i];
            out.append(setting.key.as_str());
            out.append("=");
            out.append(setting.value.as_str());
            proof {
                let t = self.settings@.take(i + 1);
                assert(t.drop_last() =~= self.settings@.take(i as int));
                assert(t.last() == self.settings@[i as int]);
                if i == 0 {
                    assert(self.settings@.take(0) =~= Seq::<ArchivedGameModSetting>::empty());
                    assert(out@ =~= self.acronym@ + "["@ + settings_text(t));
                } else {
                    assert(out@ =~= self.acronym@ + "["@ + settings_text(t));
                }
            }
            i = i + 1;
        }
        assert(self.settings@.take(n as int) =~= self.settings@);
        out.append("]");
        out
    }
}

/// The outcome of checking one setting for conversion.
#[derive(Clone, Debug, PartialEq, Eq)]
pub enum SettingFault {
    /// The setting is understood.
    Accepted,
    /// The acronym names no mod of the mode.
    UnknownAcronym,
    /// The mod is understood, but not this key; holds the mod type's name.
    UnknownSetting(String),
    /// The mod exists, but none of its settings is understood.
    NotHandled,
}

/// Why mods cannot be converted: the first setting at fault.
#[derive(Clone, Debug, PartialEq, Eq)]
pub struct ConvertError {
    pub mod_index: usize,
    pub setting_index: usize,
    pub fault: SettingFault,
}

/// A mod type's name as text, or `None` for an unknown mod.
pub open spec fn kind_text(kind: Option<String>) -> Option<Seq<char>> {
    match kind {
        Some(name) => Some(name@),
        None => None,
    }
}

/// Whether a setting with key `key` is understood for a mod of type `kind`
/// (`None`: the acronym names no mod of the mode).
pub open spec fn setting_ok(kind: Option<Seq<char>>, key: Seq<char>) -> bool {
    kind matches Some(name) && handled_type(name) && type_setting_allowed(name, key)
}

/// Whether `f` is the verdict on the setting key `key` of a mod of type `kind`.
pub open spec fn is_fault(f: SettingFault, kind: Option<Seq<char>>, key: Seq<char>) -> bool {
    match f {
        SettingFault::Accepted => setting_ok(kind, key),
        SettingFault::UnknownAcronym => kind is None,
        SettingFault::UnknownSetting(v) => kind == Some(v@) && handled_type(v@)
            && !type_setting_allowed(v@, key),
        SettingFault::NotHandled => kind matches Some(name) && !handled_type(name),
    }
}

/// The verdict on the setting key `key` of a mod of type `kind`, where `kind`
/// is `None` when the acronym names no mod of the mode.
pub fn setting_fault(kind: &Option<String>, key: &str) -> (r: SettingFault)
    ensures
        is_fault(r, kind_text(*kind), key@),
{
    match kind {
        None => SettingFault::UnknownAcronym,
        Some(name) => match type_lookup(name.as_str(), key) {
            Some(true) => SettingFault::Accepted,
            Some(false) => SettingFault::UnknownSetting(name.clone()),
            None => SettingFault::NotHandled,
        },
    }
}

/// The name of the mod type that the mod library gives `acronym` in the mode
/// numbered `mode` (`DoubleTimeOsu` for `DT` in osu!standard), or `None` when
/// the library does not know the acronym in that mode.
pub uninterp spec fn rosu_mod_type(acronym: Seq<char>, mode: u8) -> Option<Seq<char>>;

/// Calls `rosu_mods::GameMod::new(acronym, mode)` and names the mod type it
/// makes: `None` for one of the library's `Unknown*` mods, else the name of
/// its kind followed by the name of its mode, as the library's `Debug` writes
/// them. Which acronyms the library knows, and in which modes, is its own long
/// table: the result is named, not stated.
#[verifier::external_body]
fn rosu_mod_kind(acronym: &str, mode: GameMode) -> (r: Option<String>)
    ensures
        kind_text(r) == rosu_mod_type(acronym@, mode.number()),
{
    let mode = match mode {
        GameMode::Osu => rosu_mods::GameMode::Osu,
        GameMode::Taiko => rosu_mods::GameMode::Taiko,
        GameMode::Catch => rosu_mods::GameMode::Catch,
        GameMode::Mania => rosu_mods::GameMode::Mania,
    };
    match rosu_mods::GameMod::new(acronym, mode) {
        rosu_mods::GameMod::UnknownOsu(_) | rosu_mods::GameMod::UnknownTaiko(_)
        | rosu_mods::GameMod::UnknownCatch(_) | rosu_mods::GameMod::UnknownMania(_) => None,
        m => Some(format!("{:?}{:?}", m.intermode(), m.mode())),
    }
}

/// Whether every setting before position `(i, j)` (mod index, setting index,
/// in order) is understood in `mode`.
pub open spec fn ok_before(mods: Seq<ArchivedGameMod>, mode: GameMode, i: int, j: int) -> bool {
    forall|a: int, b: int|
        0 <= a < mods.len() && 0 <= b < mods[a].settings@.len() && (a < i || (a == i && b < j))
            ==> #[trigger] setting_ok(
            rosu_mod_type(mods[a].acronym@, mode.number()),
            mods[a].settings@[b].key@,
        )
}

impl ArchivedGameMods {
    /// The acronyms of the mods, in order.
    pub fn acronyms(&self) -> (r: Vec<&str>)
        ensures
            r@.len() == self.0@.len(),
            forall|i: int| 0 <= i < r@.len() ==> (#[trigger] r@[i])@ == self.0@[i].acronym@,
    {
        let mut r: Vec<&str> = Vec::new();
        let n = self.0.len();
        let mut i: usize = 0;
        while i < n
            invariant
                n == self.0@.len(),
                i <= n,
                r@.len() == i,
                forall|k: int| 0 <= k < i ==> (#[trigger] r@[k])@ == self.0@[k].acronym@,
            decreases n - i,
        {
            r.push(self.0[i].acronym.as_str());
            i = i + 1;
        }
        r
    }

    /// The legacy bits of all mods, or-ed together.
    pub fn bits(&self) -> (r: u32)
        ensures
            r == mods_bits(self.0@),
    {
        let n = self.0.len();
        let mut acc: u32 = 0;
        let mut i: usize = 0;
        while i < n
            invariant
                n == self.0@.len(),
                i <= n,
                acc == mods_bits(self.0@.take(i as int)),
            decreases n - i,
        {
            let b = self.0[i].bits();
            assert(self.0@.take(i + 1).drop_last() =~= self.0@.take(i as int));
            acc = acc | b;
            i = i + 1;
        }
        assert(self.0@.take(n as int) =~= self.0@);
        acc
    }

    /// The mods, in order.
    pub fn iter(&self) -> (r: &[ArchivedGameMod])
        ensures
            r@ == self.0@,
    {
        self.0.as_slice()
    }

    /// Whether a mod changes the clock rate during play (`WU`, `WD` or `AS`).
    pub fn varying_clock_rate(&self) -> (r: bool)
        ensures
            r == exists|i: int| 0 <= i < self.0@.len() && is_varying_rate((#[trigger] self.0@[i]).acronym@),
    {
        let n = self.0.len();
        let mut i: usize = 0;
        while i < n
            invariant
                n == self.0@.len(),
                i <= n,
                forall|k: int| 0 <= k < i ==> !is_varying_rate((#[trigger] self.0@[k]).acronym@),
            decreases n - i,
        {
            let a = self.0[i].acronym.as_str();
            if str_eq(a, "WU") || str_eq(a, "WD") || str_eq(a, "AS") {
                return true;
            }
            i = i + 1;
        }
        false
    }

    /// Whether one of the mods has the acronym `acronym`.
    pub fn contains_acronym(&self, acronym: &str) -> (r: bool)
        ensures
            r == has_acronym(self.0@, acronym@),
    {
        let n = self.0.len();
        let mut i: usize = 0;
        while i < n
            invariant
                n == self.0@.len(),
                i <= n,
                forall|k: int| 0 <= k < i ==> (#[trigger] self.0@[k]).acronym@ != acronym@,
            decreases n - i,
        {
            if str_eq(self.0[i].acronym.as_str(), acronym) {
                return true;
            }
            i = i + 1;
        }
        false
    }

    /// Whether the classic mod (`CL`) is among the mods.
    pub fn contains_classic(&self) -> (r: bool)
        ensures
            r == has_acronym(self.0@, "CL"@),
    {
        self.contains_acronym("CL")
    }

    /// Whether the random mod (`RD`) is among the mods.
    pub fn contains_random(&self) -> (r: bool)
        ensures
            r == has_acronym(self.0@, "RD"@),
    {
        self.contains_acronym("RD")
    }

    /// The mods as shown: `NM` for none, else each mod one after another.
    pub fn describe(&self) -> (r: String)
        ensures
            r@ == mods_text(self.0@),
    {
        let n = self.0.len();
        if n == 0 {
            return String::from_str("NM");
        }
        let mut out = String::new();
        let mut i: usize = 0;
        while i < n
            invariant
                n == self.0@.len(),
                i <= n,
                out@ == mods_concat(self.0@.take(i as int)),
            decreases n - i,
        {
            let d = self.0[i].describe();
            out.append(d.as_str());
            assert(self.0@.take(i + 1).drop_last() =~= self.0@.take(i as int));
            i = i + 1;
        }
        assert(self.0@.take(n as int) =~= self.0@);
        out
    }

    /// Checks that every setting of every mod can be carried over to the mod
    /// library in `mode`; on failure, the first setting (in order) at fault.
    pub fn check_convert(&self, mode: GameMode) -> (r: Result<(), ConvertError>)
        ensures
            r is Ok <==> ok_before(self.0@, mode, self.0@.len() as int, 0),
            r matches Err(e) ==> {
                &&& e.mod_index < self.0@.len()
                &&& e.setting_index < self.0@[e.mod_index as int].settings@.len()
                &&& ok_before(self.0@, mode, e.mod_index as int, e.setting_index as int)
                &&& is_fault(
                    e.fault,
                    rosu_mod_type(self.0@[e.mod_index as int].acronym@, mode.number()),
                    self.0@[e.mod_index as int].settings@[e.setting_index as int].key@,
                )
                &&& !(e.fault is Accepted)
            },
    {
        let n = self.0.len();
        let mut i: usize = 0;
        while i < n
            invariant
                n == self.0@.len(),
                i <= n,
                ok_before(self.0@, mode, i as int, 0),
            decreases n - i,
        {
            let m = &self.0[i];
            let acronym = m.acronym.as_str();
            let k = m.settings.len();
            let mut j: usize = 0;
            if k > 0 {
                let kind = rosu_mod_kind(acronym, mode);
                while j < k
                    invariant
                        n == self.0@.len(),
                        i < n,
                        *m == self.0@[i as int],
                        acronym@ == m.acronym@,
                        k == m.settings@.len(),
                        j <= k,
                        kind_text(kind) == rosu_mod_type(acronym@, mode.number()),
                        ok_before(self.0@, mode, i as int, j as int),
                    decreases k - j,
                {
                    let f = setting_fault(&kind, m.settings[j].key.as_str());
                    match f {
                        SettingFault::Accepted => {},
                        _ => {
                            assert(!setting_ok(
                                rosu_mod_type(self.0@[i as int].acronym@, mode.number()),
                                self.0@[i as int].settings@[j as int].key@,
                            ));
                            return Err(ConvertError { mod_index: i, setting_index: j, fault: f });
                        },
                    }
                    j = j + 1;
                }
            }
            assert(ok_before(self.0@, mode, i + 1, 0)) by {
                assert forall|a: int, b: int|
                    0 <= a < self.0@.len() && 0 <= b < self.0@[a].settings@.len() && (a < i + 1 || (
                    a == i + 1 && b < 0)) implies #[trigger] setting_ok(
                    rosu_mod_type(self.0@[a].acronym@, mode.number()),
                    self.0@[a].settings@[b].key@,
                ) by {
                    if a < i {
                    } else {
                        assert(a == i);
                    }
                }
            }
            i = i + 1;
        }
        Ok(())
    }
}

/// The legacy bits of two sequences of mods put together are the bits of
/// each, or-ed together.
pub proof fn lemma_mods_bits_concat(a: Seq<ArchivedGameMod>, b: Seq<ArchivedGameMod>)
    ensures
        mods_bits(a + b) == mods_bits(a) | mods_bits(b),
    decreases b.len(),
{
    if b.len() == 0 {
        assert(a + b =~= a);
        let x = mods_bits(a);
        assert(x | 0u32 == x) by (bit_vector);
    } else {
        lemma_mods_bits_concat(a, b.drop_last());
        assert((a + b).drop_last() =~= a + b.drop_last());
        assert((a + b).last() == b.last());
        let x = mods_bits(a);
        let y = mods_bits(b.drop_last());
        let z = acronym_bits(b.last().acronym@);
        assert((x | y) | z == x | (y | z)) by (bit_vector);
    }
}

/// The legacy bits do not depend on the order in which mods are stored.
pub proof fn lemma_mods_bits_order(a: Seq<ArchivedGameMod>, b: Seq<ArchivedGameMod>)
    ensures
        mods_bits(a + b) == mods_bits(b + a),
{
    lemma_mods_bits_concat(a, b);
    lemma_mods_bits_concat(b, a);
    let x = mods_bits(a);
    let y = mods_bits(b);
    assert(x | y == y | x) by (bit_vector);
}

/// The clock rate varies exactly when `WU`, `WD` or `AS` is among the mods.
pub proof fn lemma_varying_rate_acronyms(mods: Seq<ArchivedGameMod>)
    ensures
        (exists|i: int| 0 <= i < mods.len() && is_varying_rate((#[trigger] mods[i]).acronym@))
            <==> (has_acronym(mods, "WU"@) || has_acronym(mods, "WD"@) || has_acronym(mods, "AS"@)),
{
    if exists|i: int| 0 <= i < mods.len() && is_varying_rate((#[trigger] mods[i]).acronym@) {
        let i = choose|i: int| 0 <= i < mods.len() && is_varying_rate((#[trigger] mods[i]).acronym@);
        assert(mods[i].acronym@ == "WU"@ ==> has_acronym(mods, "WU"@));
        assert(mods[i].acronym@ == "WD"@ ==> has_acronym(mods, "WD"@));
        assert(mods[i].acronym@ == "AS"@ ==> has_acronym(mods, "AS"@));
    }
}


/// Mods without settings always convert, whatever their acronyms: only
/// settings can be at fault.
pub proof fn lemma_settingless_mods_convert(mods: Seq<ArchivedGameMod>, mode: GameMode)
    requires
        forall|i: int| 0 <= i < mods.len() ==> (#[trigger] mods[i]).settings@.len() == 0,
    ensures
        ok_before(mods, mode, mods.len() as int, 0),
{
    assert forall|a: int, b: int|
        0 <= a < mods.len() && 0 <= b < mods[a].settings@.len() && (a < mods.len() || (a
            == mods.len() && b < 0)) implies #[trigger] setting_ok(
        rosu_mod_type(mods[a].acronym@, mode.number()),
        mods[a].settings@[b].key@,
    ) by {
        assert(mods[a].settings@.len() == 0);
    }
}

/// The legacy bits that osu! gives the mods that have one: `NF` bit 0, `EZ`
/// bit 1, `TD` bit 2, `HD` bit 3, `HR` bit 4, `DT` bit 6, `HT` bit 8, `FL`
/// bit 10 and `SO` bit 12; every other acronym has none here.
pub proof fn lemma_acronym_legacy_bits(acr: Seq<char>)
    ensures
        acronym_bits("NF"@) == 1u32 << 0u32,
        acronym_bits("EZ"@) == 1u32 << 1u32,
        acronym_bits("TD"@) == 1u32 << 2u32,
        acronym_bits("HD"@) == 1u32 << 3u32,
        acronym_bits("HR"@) == 1u32 << 4u32,
        acronym_bits("DT"@) == 1u32 << 6u32,
        acronym_bits("HT"@) == 1u32 << 8u32,
        acronym_bits("FL"@) == 1u32 << 10u32,
        acronym_bits("SO"@) == 1u32 << 12u32,
        !(acr == "NF"@ || acr == "EZ"@ || acr == "TD"@ || acr == "HD"@ || acr == "HR"@ || acr
            == "DT"@ || acr == "HT"@ || acr == "FL"@ || acr == "SO"@) ==> acronym_bits(acr) == 0,
{
    reveal_strlit("NF");
    reveal_strlit("EZ");
    reveal_strlit("TD");
    reveal_strlit("HD");
    reveal_strlit("HR");
    reveal_strlit("DT");
    reveal_strlit("HT");
    reveal_strlit("FL");
    reveal_strlit("SO");
    assert("NF"@[0] != "EZ"@[0]);
    assert("NF"@[0] != "TD"@[0]);
    assert("NF"@[0] != "HD"@[0]);
    assert("NF"@[0] != "HR"@[0]);
    assert("NF"@[0] != "DT"@[0]);
    assert("NF"@[0] != "HT"@[0]);
    assert("NF"@[0] != "FL"@[0]);
    assert("NF"@[0] != "SO"@[0]);
    assert("EZ"@[0] != "TD"@[0]);
    assert("EZ"@[0] != "HD"@[0]);
    assert("EZ"@[0] != "HR"@[0]);
    assert("EZ"@[0] != "DT"@[0]);
    assert("EZ"@[0] != "HT"@[0]);
    assert("EZ"@[0] != "FL"@[0]);
    assert("EZ"@[0] != "SO"@[0]);
    assert("TD"@[0] != "HD"@[0]);
    assert("TD"@[0] != "HR"@[0]);
    assert("TD"@[0] != "DT"@[0]);
    assert("TD"@[0] != "HT"@[0]);
    assert("TD"@[0] != "FL"@[0]);
    assert("TD"@[0] != "SO"@[0]);
    assert("HD"@[1] != "HR"@[1]);
    assert("HD"@[0] != "DT"@[0]);
    assert("HD"@[1] != "HT"@[1]);
    assert("HD"@[0] != "FL"@[0]);
    assert("HD"@[0] != "SO"@[0]);
    assert("HR"@[0] != "DT"@[0]);
    assert("HR"@[1] != "HT"@[1]);
    assert("HR"@[0] != "FL"@[0]);
    assert("HR"@[0] != "SO"@[0]);
    assert("DT"@[0] != "HT"@[0]);
    assert("DT"@[0] != "FL"@[0]);
    assert("DT"@[0] != "SO"@[0]);
    assert("HT"@[0] != "FL"@[0]);
    assert("HT"@[0] != "SO"@[0]);
    assert("FL"@[0] != "SO"@[0]);
    assert(1u32 << 0u32 == 1u32 && 1u32 << 1u32 == 2u32 && 1u32 << 2u32 == 4u32 && 1u32 << 3u32
        == 8u32 && 1u32 << 4u32 == 16u32 && 1u32 << 6u32 == 64u32 && 1u32 << 8u32 == 256u32
        && 1u32 << 10u32 == 1024u32 && 1u32 << 12u32 == 4096u32) by (bit_vector);
}

proof fn lemma_single_bits(a: u32, b: u32)
    by (bit_vector)
    requires
        a == 1 || a == 2 || a == 4 || a == 8 || a == 16 || a == 64 || a == 256 || a == 1024 || a
            == 4096,
        b == 1 || b == 2 || b == 4 || b == 8 || b == 16 || b == 64 || b == 256 || b == 1024 || b
            == 4096,
    ensures
        (a & b != 0) <==> a == b,
{
}

proof fn lemma_or_and(p: u32, q: u32, v: u32)
    by (bit_vector)
    ensures
        ((p | q) & v != 0) <==> (p & v != 0 || q & v != 0),
        0u32 & v == 0,
{
}

/// The legacy bits of a list of mods hold the bit of a mod that has one
/// exactly when that mod is in the list.
pub proof fn lemma_mods_bits_has(mods: Seq<ArchivedGameMod>, acr: Seq<char>)
    requires
        acronym_bits(acr) != 0,
    ensures
        (mods_bits(mods) & acronym_bits(acr) != 0) <==> has_acronym(mods, acr),
    decreases mods.len(),
{
    let v = acronym_bits(acr);
    if mods.len() == 0 {
        lemma_or_and(0, 0, v);
    } else {
        let init = mods.drop_last();
        let last = mods.last();
        lemma_mods_bits_has(init, acr);
        let p = mods_bits(init);
        let q = acronym_bits(last.acronym@);
        lemma_or_and(p, q, v);
        if q == 0 {
            assert(last.acronym@ != acr);
        } else {
            lemma_single_bits(q, v);
        }
        if has_acronym(mods, acr) {
            let i = choose|i: int| 0 <= i < mods.len() && (#[trigger] mods[i]).acronym@ == acr;
            if i < mods.len() - 1 {
                assert(init[i] == mods[i]);
            }
        }
        if has_acronym(init, acr) {
            let i = choose|i: int| 0 <= i < init.len() && (#[trigger] init[i]).acronym@ == acr;
            assert(mods[i] == init[i]);
        }
        if last.acronym@ == acr {
            assert(mods[mods.len() - 1] == last);
        }
    }
}

} // verus!
