//! The decisions of the commands that compute, compare and reload attributes:
//! which modes to run, what to ask osu-tools, and how to read the inputs.
use vstd::prelude::*;
use vstd::string::*;

use crate::mode::GameMode;
use crate::mods::ArchivedGameMods;
use crate::score::views;
use crate::text::{
    after_last, all_digits, decimal, is_digit, lemma_after_last_split, lemma_decimal_reads_back,
    lemma_parse_signed_decimal, has_prefix, has_suffix, i64_to_string, parse_i32, parse_i32_spec, rsplit_first,
    signed_decimal, split, split_spec, str_eq, strip_prefix, strip_suffix, trim_end_matches,
    trim_suffix_all,
};

verus! {

/// The beatmap id in a path such as `maps/123.osu`: the last path segment
/// without its `.osu` endings, read as a signed number.
pub open spec fn map_id_of(path: Seq<char>) -> Option<i32> {
    parse_i32_spec(after_last(trim_suffix_all(path, ".osu"@), '/'))
}

/// The beatmap id in a path such as `maps/123.osu`, if there is one.
pub fn parse_map_id(path: &str) -> (r: Option<i32>)
    ensures
        r == map_id_of(path@),
{
    let trimmed = trim_end_matches(path, ".osu");
    let name = rsplit_first(trimmed, '/');
    parse_i32(name)
}

/// The path of a beatmap file: the directory, the id, `.osu`.
pub fn map_path(dir: &str, map_id: i64) -> (r: String)
    ensures
        r@ == dir@ + signed_decimal(map_id as int) + ".osu"@,
{
    let mut out = String::from_str(dir);
    let id = i64_to_string(map_id);
    out.append(id.as_str());
    out.append(".osu");
    out
}

/// `--mod` followed by each mod combination.
pub open spec fn mod_flags(mods: Seq<Seq<char>>) -> Seq<Seq<char>>
    decreases mods.len(),
{
    if mods.len() == 0 {
        Seq::empty()
    } else {
        mod_flags(mods.drop_last()) + seq!["--mod"@, mods.last()]
    }
}

/// Each mod combination gets its own `--mod`, in order: every entry at an
/// even position is the flag, and entry `2k + 1` is combination `k`.
pub proof fn lemma_mod_flags_each(mods: Seq<Seq<char>>)
    ensures
        mod_flags(mods).len() == 2 * mods.len(),
        forall|i: int|
            0 <= i < mod_flags(mods).len() && i % 2 == 0 ==> #[trigger] mod_flags(mods)[i]
                == "--mod"@,
        forall|k: int| #![trigger mods[k]] 0 <= k < mods.len() ==> mod_flags(mods)[2 * k + 1] == mods[k],
    decreases mods.len(),
{
    if mods.len() > 0 {
        let init = mods.drop_last();
        lemma_mod_flags_each(init);
        let tail = seq!["--mod"@, mods.last()];
        assert(mod_flags(mods) == mod_flags(init) + tail);
        assert forall|i: int|
            0 <= i < mod_flags(mods).len() && i % 2 == 0 implies #[trigger] mod_flags(mods)[i]
                == "--mod"@ by {
            if i < mod_flags(init).len() {
                assert(mod_flags(mods)[i] == mod_flags(init)[i]);
            } else {
                assert(mod_flags(mods)[i] == tail[0]);
            }
        }
        assert forall|k: int| #![trigger mods[k]] 0 <= k < mods.len() implies mod_flags(mods)[2 * k
            + 1] == mods[k] by {
            if k < mods.len() - 1 {
                assert(init[k] == mods[k]);
                assert(mod_flags(mods)[2 * k + 1] == mod_flags(init)[2 * k + 1]);
            } else {
                assert(mod_flags(mods)[2 * k + 1] == tail[1]);
            }
        }
    }
}

/// A map is simulated in one call for all mod combinations: the program, the
/// `simulate` command, the mode, the path and `--json`, then `--mod` with
/// each combination, in order.
pub proof fn lemma_simulate_all_args_each(
    perf_calc: Seq<char>,
    mode: Seq<char>,
    path: Seq<char>,
    mods: Seq<Seq<char>>,
)
    ensures
        simulate_all_args_spec(perf_calc, mode, path, mods).len() == 5 + 2 * mods.len(),
        simulate_all_args_spec(perf_calc, mode, path, mods)[0] == perf_calc,
        simulate_all_args_spec(perf_calc, mode, path, mods)[1] == "simulate"@,
        simulate_all_args_spec(perf_calc, mode, path, mods)[2] == mode,
        simulate_all_args_spec(perf_calc, mode, path, mods)[3] == path,
        simulate_all_args_spec(perf_calc, mode, path, mods)[4] == "--json"@,
        forall|i: int|
            5 <= i < simulate_all_args_spec(perf_calc, mode, path, mods).len() && i % 2 == 1
                ==> #[trigger] simulate_all_args_spec(perf_calc, mode, path, mods)[i] == "--mod"@,
        forall|k: int|
            #![trigger mods[k]]
            0 <= k < mods.len() ==> simulate_all_args_spec(perf_calc, mode, path, mods)[6 + 2 * k]
                == mods[k],
{
    lemma_mod_flags_each(mods);
    let head = seq![perf_calc, "simulate"@, mode, path, "--json"@];
    let s = simulate_all_args_spec(perf_calc, mode, path, mods);
    assert(s == head + mod_flags(mods));
    assert forall|i: int| 5 <= i < s.len() && i % 2 == 1 implies #[trigger] s[i] == "--mod"@ by {
        assert(s[i] == mod_flags(mods)[i - 5]);
    }
    assert forall|k: int| #![trigger mods[k]] 0 <= k < mods.len() implies s[6 + 2 * k] == mods[k] by {
        assert(s[6 + 2 * k] == mod_flags(mods)[2 * k + 1]);
    }
}

/// The arguments that ask osu-tools for the attributes of a map in one mode,
/// for each of the mod combinations.
pub open spec fn simulate_all_args_spec(
    perf_calc: Seq<char>,
    mode: Seq<char>,
    path: Seq<char>,
    mods: Seq<Seq<char>>,
) -> Seq<Seq<char>> {
    seq![perf_calc, "simulate"@, mode, path, "--json"@] + mod_flags(mods)
}

/// The arguments that ask osu-tools for the attributes of a map in one mode,
/// for each of the mod combinations; `None` when there are no combinations.
pub fn simulate_all_args(perf_calc: &str, mode: &str, path: &str, mods: &Vec<&str>) -> (r: Option<
    Vec<String>,
>)
    ensures
        r is None <==> mods@.len() == 0,
        r matches Some(v) ==> views(v@) == simulate_all_args_spec(
            perf_calc@,
            mode@,
            path@,
            mods@.map_values(|m: &str| m@),
        ),
{
    let n = mods.len();
    if n == 0 {
        return None;
    }
    let ghost ms = mods@.map_values(|m: &str| m@);
    let mut args: Vec<String> = Vec::new();
    args.push(String::from_str(perf_calc));
    args.push(String::from_str("simulate"));
    args.push(String::from_str(mode));
    args.push(String::from_str(path));
    args.push(String::from_str("--json"));
    let ghost head = seq![perf_calc@, "simulate"@, mode@, path@, "--json"@];
    assert(views(args@) =~= head + mod_flags(ms.take(0)));
    let mut i: usize = 0;
    while i < n
        invariant
            n == mods@.len(),
            ms == mods@.map_values(|m: &str| m@),
            i <= n,
            views(args@) == head + mod_flags(ms.take(i as int)),
        decreases n - i,
    {
        let ghost before = views(args@);
        args.push(String::from_str("--mod"));
        assert(views(args@) =~= before.push("--mod"@));
        let ghost mid = views(args@);
        args.push(String::from_str(mods[i]));
        assert(views(args@) =~= mid.push(mods@[i as int]@));
        proof {
            let t = ms.take(i + 1);
            assert(t.drop_last() =~= ms.take(i as int));
            assert(t.last() == mods@[i as int]@);
            assert(views(args@) =~= head + mod_flags(t));
        }
        i = i + 1;
    }
    assert(ms.take(n as int) =~= ms);
    Some(args)
}

/// The modes whose attributes are computed for a map of mode `map_mode`:
/// osu!standard maps convert to every mode, others only to their own.
pub open spec fn modes_to_simulate_spec(map_mode: GameMode) -> Seq<GameMode> {
    if map_mode == GameMode::Osu {
        seq![GameMode::Osu, GameMode::Taiko, GameMode::Catch, GameMode::Mania]
    } else {
        seq![map_mode]
    }
}

/// The modes whose attributes are computed for a map of mode `map_mode`.
pub fn modes_to_simulate(map_mode: GameMode) -> (r: Vec<GameMode>)
    ensures
        r@ == modes_to_simulate_spec(map_mode),
{
    let r = match map_mode {
        GameMode::Osu => vec![GameMode::Osu, GameMode::Taiko, GameMode::Catch, GameMode::Mania],
        GameMode::Taiko => vec![GameMode::Taiko],
        GameMode::Catch => vec![GameMode::Catch],
        GameMode::Mania => vec![GameMode::Mania],
    };
    assert(r@ =~= modes_to_simulate_spec(map_mode));
    r
}

/// A map is always simulated in its own mode, first; an osu!standard map in
/// each of the four modes once, any other map in its own mode only.
pub proof fn lemma_modes_to_simulate(map_mode: GameMode)
    ensures
        modes_to_simulate_spec(map_mode).len() >= 1,
        modes_to_simulate_spec(map_mode)[0] == map_mode,
        map_mode != GameMode::Osu ==> modes_to_simulate_spec(map_mode) == seq![map_mode],
        map_mode == GameMode::Osu ==> {
            &&& modes_to_simulate_spec(map_mode).len() == 4
            &&& forall|m: GameMode| #[trigger] modes_to_simulate_spec(map_mode).contains(m)
            &&& forall|i: int, j: int|
                0 <= i < j < 4 ==> modes_to_simulate_spec(map_mode)[i] != modes_to_simulate_spec(
                    map_mode,
                )[j]
        },
{
    if map_mode == GameMode::Osu {
        let s = modes_to_simulate_spec(map_mode);
        assert forall|m: GameMode| #[trigger] s.contains(m) by {
            match m {
                GameMode::Osu => assert(s[0] == m),
                GameMode::Taiko => assert(s[1] == m),
                GameMode::Catch => assert(s[2] == m),
                GameMode::Mania => assert(s[3] == m),
            }
        }
    }
}

/// The acronyms one after another.
pub open spec fn acronyms_concat(mods: Seq<crate::mods::ArchivedGameMod>) -> Seq<char>
    decreases mods.len(),
{
    if mods.len() == 0 {
        Seq::empty()
    } else {
        acronyms_concat(mods.drop_last()) + mods.last().acronym@
    }
}

/// The acronyms of mods put one after another are those of each, one after
/// the other; a single mod gives its own acronym.
pub proof fn lemma_acronyms_concat(a: Seq<crate::mods::ArchivedGameMod>, b: Seq<crate::mods::ArchivedGameMod>)
    ensures
        acronyms_concat(a + b) == acronyms_concat(a) + acronyms_concat(b),
        a.len() == 1 ==> acronyms_concat(a) == a[0].acronym@,
    decreases b.len(),
{
    if a.len() == 1 {
        assert(a.drop_last() =~= Seq::<crate::mods::ArchivedGameMod>::empty());
        assert(acronyms_concat(a.drop_last()) =~= Seq::<char>::empty());
        assert(a.last() == a[0]);
        assert(acronyms_concat(a) =~= Seq::<char>::empty() + a[0].acronym@);
        assert(acronyms_concat(a) =~= a[0].acronym@);
    }
    if b.len() == 0 {
        assert(a + b =~= a);
        assert(acronyms_concat(a) + acronyms_concat(b) =~= acronyms_concat(a));
    } else {
        lemma_acronyms_concat(a, b.drop_last());
        assert((a + b).drop_last() =~= a + b.drop_last());
        assert((a + b).last() == b.last());
        assert(acronyms_concat(a + b) =~= acronyms_concat(a) + acronyms_concat(b));
    }
}

/// The mods as osu-tools takes them: acronyms one after another, `NM` for none.
pub open spec fn mods_label_spec(mods: Seq<crate::mods::ArchivedGameMod>) -> Seq<char> {
    if acronyms_concat(mods).len() == 0 {
        "NM"@
    } else {
        acronyms_concat(mods)
    }
}

/// The mods as osu-tools takes them: acronyms one after another, `NM` for none.
pub fn mods_label(mods: &ArchivedGameMods) -> (r: String)
    ensures
        r@ == mods_label_spec(mods.0@),
{
    let n = mods.0.len();
    let mut out = String::new();
    let mut i: usize = 0;
    while i < n
        invariant
            n == mods.0@.len(),
            i <= n,
            out@ == acronyms_concat(mods.0@.take(i as int)),
        decreases n - i,
    {
        out.append(mods.0[i].acronym.as_str());
        assert(mods.0@.take(i + 1).drop_last() =~= mods.0@.take(i as int));
        i = i + 1;
    }
    assert(mods.0@.take(n as int) =~= mods.0@);
    if out.as_str().unicode_len() == 0 {
        return String::from_str("NM");
    }
    out
}

/// The arguments that ask osu-tools again for the attributes of a stored entry.
pub open spec fn recalc_args_spec(perf_calc: Seq<char>, mode: Seq<char>, path: Seq<char>, mods: Seq<
    char,
>) -> Seq<Seq<char>> {
    seq![perf_calc, "simulate"@, mode, path, "--json"@, "--no-classic"@, "--mod"@, mods]
}

/// The arguments that ask osu-tools again for the attributes of a stored entry.
pub fn recalc_args(perf_calc: &str, mode: &str, path: &str, mods: &str) -> (r: Vec<String>)
    ensures
        views(r@) == recalc_args_spec(perf_calc@, mode@, path@, mods@),
{
    let mut args: Vec<String> = Vec::new();
    args.push(String::from_str(perf_calc));
    args.push(String::from_str("simulate"));
    args.push(String::from_str(mode));
    args.push(String::from_str(path));
    args.push(String::from_str("--json"));
    args.push(String::from_str("--no-classic"));
    args.push(String::from_str("--mod"));
    args.push(String::from_str(mods));
    assert(views(args@) =~= recalc_args_spec(perf_calc@, mode@, path@, mods@));
    args
}

/// Whether a stored entry is to be computed again; the list of maps to
/// recompute is empty.
pub fn should_recalc(beatmap_id: i32) -> (r: bool)
    ensures
        !r,
{
    false
}

/// The start of every line of the score dump that inserts scores.
pub open spec fn insert_into() -> Seq<char> {
    "INSERT INTO `scores` VALUES "@
}

/// The scores of an insert line: between the insert prefix and `(`, and `);\n`.
pub open spec fn prepare_line_spec(line: Seq<char>) -> Option<Seq<char>> {
    if has_prefix(line, insert_into()) {
        let a = line.subrange(insert_into().len() as int, line.len() as int);
        if has_prefix(a, "("@) {
            let b = a.subrange(1, a.len() as int);
            if has_suffix(b, ");\n"@) {
                Some(b.subrange(0, b.len() - 3))
            } else {
                None
            }
        } else {
            None
        }
    } else {
        None
    }
}

/// The scores framed as an insert line of the dump are found again: the
/// insert prefix, `(`, the scores and `);` with the line break around any
/// text give back exactly that text.
pub proof fn lemma_prepare_line_frame(scores: Seq<char>)
    ensures
        prepare_line_spec(insert_into() + "("@ + scores + ");\n"@) == Some(scores),
{
    reveal_strlit("(");
    reveal_strlit(");\n");
    let p = insert_into();
    let line = p + "("@ + scores + ");\n"@;
    assert(line.subrange(0, p.len() as int) =~= p);
    let a = line.subrange(p.len() as int, line.len() as int);
    assert(a =~= "("@ + scores + ");\n"@);
    assert(a.subrange(0, 1) =~= "("@);
    let b = a.subrange(1, a.len() as int);
    assert(b =~= scores + ");\n"@);
    assert(b.subrange(b.len() - 3, b.len() as int) =~= ");\n"@);
    assert(b.subrange(0, b.len() - 3) =~= scores);
}

/// The scores of an insert line of the dump, without its frame.
pub fn prepare_line(line: &str) -> (r: Option<&str>)
    ensures
        r is None <==> prepare_line_spec(line@) is None,
        r matches Some(t) ==> prepare_line_spec(line@) == Some(t@),
{
    proof {
        reveal_strlit("(");
        reveal_strlit(");\n");
    }
    match strip_prefix(line, "INSERT INTO `scores` VALUES ") {
        Some(a) => match strip_prefix(a, "(") {
            Some(b) => strip_suffix(b, ");\n"),
            None => None,
        },
        None => None,
    }
}

/// Whether a line of the dump inserts scores.
pub fn is_insert_line(line: &str) -> (r: bool)
    ensures
        r == has_prefix(line@, insert_into()),
{
    crate::text::starts_with(line, "INSERT INTO `scores` VALUES ")
}

/// The scores of an insert line, one text per score.
pub fn split_scores(scores: &str) -> (r: Vec<&str>)
    ensures
        r@.map_values(|t: &str| t@) == split_spec(scores@, "),("@),
{
    proof {
        reveal_strlit("),(");
    }
    split(scores, "),(")
}

/// What reading one score as a CSV record gave: `None` when the text holds no
/// record, else the record's fields or the reader's error message.
pub open spec fn read_view(read: Option<Result<Vec<String>, String>>) -> Option<Result<Seq<Seq<char>>, Seq<char>>> {
    match read {
        None => None,
        Some(Ok(fields)) => Some(Ok(views(fields@))),
        Some(Err(e)) => Some(Err(e@)),
    }
}

/// What the CSV reader makes of the text of one score, read with `'` as the
/// quote character and no header row: `None` when it finds no record, else
/// the fields of the first record or the reader's error message.
pub uninterp spec fn csv_row(text: Seq<char>) -> Option<Result<Seq<Seq<char>>, Seq<char>>>;

/// Reads the first CSV record of `text` with `csv::ReaderBuilder` (no header
/// row, `'` as the quote character) into a `csv::StringRecord`, and hands out
/// its fields, `None` when there is none, or the error's message. How the
/// reader splits and unquotes fields is the CSV crate's own: the result is
/// named, not stated.
#[verifier::external_body]
fn read_score_row(text: &str) -> (r: Option<Result<Vec<String>, String>>)
    ensures
        read_view(r) == csv_row(text@),
{
    let mut record = csv::StringRecord::new();
    let mut reader = csv::ReaderBuilder::new().has_headers(false).quote(b'\'').from_reader(text.as_bytes());
    match reader.read_record(&mut record) {
        Ok(true) => Some(Ok(record.iter().map(String::from).collect())),
        Ok(false) => None,
        Err(e) => Some(Err(e.to_string())),
    }
}

/// Why a score of an insert line could not be read; each holds the score's text.
#[derive(Clone, Debug, PartialEq, Eq)]
pub enum RowFailure {
    /// The text holds no record.
    NoRecord(String),
    /// The CSV reader failed, with its message.
    Unreadable(String, String),
}

/// Whether `f` reports the score text `piece`, of which the CSV reader gave
/// `read`, as unreadable.
pub open spec fn is_row_failure(
    f: RowFailure,
    piece: Seq<char>,
    read: Option<Result<Seq<Seq<char>>, Seq<char>>>,
) -> bool {
    match f {
        RowFailure::NoRecord(p) => p@ == piece && read is None,
        RowFailure::Unreadable(p, e) => p@ == piece && read == Some(
            Err::<Seq<Seq<char>>, Seq<char>>(e@),
        ),
    }
}

/// The fields of the score text `piece`, given what the CSV reader made of
/// it, or why it cannot be read.
pub fn classify_row(piece: &str, read: Option<Result<Vec<String>, String>>) -> (r: Result<
    Vec<String>,
    RowFailure,
>)
    ensures
        match r {
            Ok(fields) => read_view(read) == Some(Ok::<Seq<Seq<char>>, Seq<char>>(views(fields@))),
            Err(f) => is_row_failure(f, piece@, read_view(read)),
        },
{
    match read {
        Some(Ok(fields)) => Ok(fields),
        None => Err(RowFailure::NoRecord(String::from_str(piece))),
        Some(Err(e)) => Err(RowFailure::Unreadable(String::from_str(piece), e)),
    }
}

/// The records of the scores of an insert line, read in order up to the
/// first score that cannot be read; with it, why it cannot.
pub fn score_rows(scores: &str) -> (r: (Vec<Vec<String>>, Option<RowFailure>))
    ensures
        r.0@.len() <= split_spec(scores@, "),("@).len(),
        forall|i: int|
            0 <= i < r.0@.len() ==> csv_row(#[trigger] split_spec(scores@, "),("@)[i]) == Some(
                Ok::<Seq<Seq<char>>, Seq<char>>(views(r.0@[i]@)),
            ),
        r.1 is None <==> r.0@.len() == split_spec(scores@, "),("@).len(),
        r.1 matches Some(f) ==> is_row_failure(
            f,
            split_spec(scores@, "),("@)[r.0@.len() as int],
            csv_row(split_spec(scores@, "),("@)[r.0@.len() as int]),
        ),
{
    let pieces = split_scores(scores);
    let ghost parts = split_spec(scores@, "),("@);
    let n = pieces.len();
    let mut rows: Vec<Vec<String>> = Vec::new();
    let mut i: usize = 0;
    while i < n
        invariant
            n == pieces@.len(),
            pieces@.map_values(|t: &str| t@) == parts,
            parts == split_spec(scores@, "),("@),
            i <= n,
            rows@.len() == i,
            forall|k: int| 0 <= k < i ==> csv_row(#[trigger] parts[k]) == Some(
                Ok::<Seq<Seq<char>>, Seq<char>>(views(rows@[k]@)),
            ),
        decreases n - i,
    {
        let piece = pieces[i];
        assert(piece@ == parts[i as int]);
        let read = read_score_row(piece);
        match classify_row(piece, read) {
            Ok(fields) => {
                rows.push(fields);
            },
            Err(f) => {
                return (rows, Some(f));
            },
        }
        i = i + 1;
    }
    (rows, None)
}

/// The modes whose score dumps are loaded: all four, or the one asked for;
/// `None` for a number that is no mode.
pub open spec fn modes_to_load_spec(mode: Option<u8>) -> Option<Seq<GameMode>> {
    match mode {
        None => Some(seq![GameMode::Osu, GameMode::Taiko, GameMode::Catch, GameMode::Mania]),
        Some(n) => match GameMode::from_number(n) {
            Some(m) => Some(seq![m]),
            None => None,
        },
    }
}

/// The modes whose score dumps are loaded.
pub fn modes_to_load(mode: Option<u8>) -> (r: Option<Vec<GameMode>>)
    ensures
        r is None <==> modes_to_load_spec(mode) is None,
        r matches Some(v) ==> modes_to_load_spec(mode) == Some(v@),
{
    match mode {
        None => {
            let v = vec![GameMode::Osu, GameMode::Taiko, GameMode::Catch, GameMode::Mania];
            assert(v@ =~= seq![GameMode::Osu, GameMode::Taiko, GameMode::Catch, GameMode::Mania]);
            Some(v)
        },
        Some(n) => match GameMode::from_u8(n) {
            Some(m) => {
                let v = vec![m];
                assert(v@ =~= seq![m]);
                Some(v)
            },
            None => None,
        },
    }
}

/// Without a mode, the dumps of all four modes are loaded, each once; with a
/// mode number, only that mode's dump, and nothing when the number names no
/// mode.
pub proof fn lemma_modes_to_load(mode: Option<u8>)
    ensures
        mode is None ==> (modes_to_load_spec(mode) matches Some(s) && s.len() == 4 && (forall|
            m: GameMode,
        | #[trigger] s.contains(m)) && (forall|i: int, j: int|
            0 <= i < j < 4 ==> s[i] != s[j])),
        mode matches Some(n) ==> (modes_to_load_spec(mode) is Some <==> n <= 3),
        mode matches Some(n) ==> (modes_to_load_spec(mode) matches Some(s) ==> s.len() == 1
            && s[0].number() == n),
{
    if mode is None {
        let s = seq![GameMode::Osu, GameMode::Taiko, GameMode::Catch, GameMode::Mania];
        assert forall|m: GameMode| #[trigger] s.contains(m) by {
            match m {
                GameMode::Osu => assert(s[0] == m),
                GameMode::Taiko => assert(s[1] == m),
                GameMode::Catch => assert(s[2] == m),
                GameMode::Mania => assert(s[3] == m),
            }
        }
    }
}

/// Whether a score's build id marks it as set on lazer (any value but `NULL`).
pub fn is_lazer_build(build_id: &str) -> (r: bool)
    ensures
        r == (build_id@ != "NULL"@),
{
    !str_eq(build_id, "NULL")
}


/// The id written into a beatmap path is the id read back from it: for a
/// directory that is empty or ends with `/`, `map_path` and `parse_map_id`
/// agree on every `i32` id.
pub proof fn lemma_map_path_roundtrip(dir: Seq<char>, id: i32)
    requires
        dir.len() == 0 || dir.last() == '/',
    ensures
        map_id_of(dir + signed_decimal(id as int) + ".osu"@) == Some(id),
{
    reveal_strlit(".osu");
    let d = signed_decimal(id as int);
    let m: nat = if id < 0 { (-(id as int)) as nat } else { id as nat };
    lemma_decimal_reads_back(m);
    lemma_parse_signed_decimal(id);
    let dm = decimal(m);
    assert(d.len() >= 1);
    assert(is_digit(d.last())) by {
        if id < 0 {
            assert(d.last() == dm[dm.len() - 1]);
        }
    }
    assert forall|k: int| 0 <= k < d.len() implies d[k] != '/' by {
        if id < 0 && k == 0 {
        } else if id < 0 {
            assert(d[k] == dm[k - 1]);
            assert(is_digit(dm[k - 1]));
        } else {
            assert(is_digit(dm[k]));
        }
    }
    let x = dir + d;
    let t = x + ".osu"@;
    assert(t.subrange(t.len() - 4, t.len() as int) =~= ".osu"@);
    assert(t.subrange(0, t.len() - 4) =~= x);
    assert(x.last() == d.last());
    assert(!has_suffix(x, ".osu"@)) by {
        if has_suffix(x, ".osu"@) {
            assert(x.subrange(x.len() - 4, x.len() as int)[3] == x.last());
        }
    }
    assert(trim_suffix_all(x, ".osu"@) == x);
    assert(trim_suffix_all(t, ".osu"@) == x);
    assert forall|k: int| dir.len() <= k < x.len() implies x[k] != '/' by {
        assert(x[k] == d[k - dir.len()]);
    }
    lemma_after_last_split(x, '/', dir.len() as int);
    assert(x.subrange(0, dir.len() as int) =~= dir);
    assert(x.subrange(dir.len() as int, x.len() as int) =~= d);
    assert(after_last(dir, '/') =~= Seq::<char>::empty());
    assert(after_last(x, '/') =~= d);
}

} // verus!
