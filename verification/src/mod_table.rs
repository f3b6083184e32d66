//! Which mod types have settings that conversion understands, and which
//! setting keys each of them understands. Mod types are named as the mod
//! library names them, e.g. `DoubleTimeOsu`.
use vstd::prelude::*;

use crate::text::str_eq;

verus! {

/// Whether conversion understands settings of the mod type `name` at all.
pub open spec fn handled_type(name: Seq<char>) -> bool {
    name == "AccuracyChallengeOsu"@
        || name == "AccuracyChallengeTaiko"@
        || name == "AccuracyChallengeCatch"@
        || name == "AccuracyChallengeMania"@
        || name == "AdaptiveSpeedOsu"@
        || name == "AdaptiveSpeedTaiko"@
        || name == "AdaptiveSpeedMania"@
        || name == "ApproachDifferentOsu"@
        || name == "BarrelRollOsu"@
        || name == "ClassicOsu"@
        || name == "CoverMania"@
        || name == "DaycoreOsu"@
        || name == "DaycoreTaiko"@
        || name == "DaycoreCatch"@
        || name == "DaycoreMania"@
        || name == "DeflateOsu"@
        || name == "DepthOsu"@
        || name == "DifficultyAdjustOsu"@
        || name == "DifficultyAdjustCatch"@
        || name == "DifficultyAdjustTaiko"@
        || name == "DifficultyAdjustMania"@
        || name == "DoubleTimeOsu"@
        || name == "DoubleTimeTaiko"@
        || name == "DoubleTimeCatch"@
        || name == "DoubleTimeMania"@
        || name == "EasyOsu"@
        || name == "EasyCatch"@
        || name == "EasyMania"@
        || name == "FlashlightOsu"@
        || name == "FlashlightTaiko"@
        || name == "FlashlightCatch"@
        || name == "FlashlightMania"@
        || name == "GrowOsu"@
        || name == "HalfTimeOsu"@
        || name == "HalfTimeTaiko"@
        || name == "HalfTimeCatch"@
        || name == "HalfTimeMania"@
        || name == "HiddenOsu"@
        || name == "MagnetisedOsu"@
        || name == "MirrorOsu"@
        || name == "MutedOsu"@
        || name == "MutedTaiko"@
        || name == "MutedCatch"@
        || name == "MutedMania"@
        || name == "NightcoreOsu"@
        || name == "NightcoreTaiko"@
        || name == "NightcoreCatch"@
        || name == "NightcoreMania"@
        || name == "NoScopeOsu"@
        || name == "NoScopeCatch"@
        || name == "PerfectOsu"@
        || name == "PerfectTaiko"@
        || name == "PerfectCatch"@
        || name == "PerfectMania"@
        || name == "RandomOsu"@
        || name == "RandomTaiko"@
        || name == "RandomMania"@
        || name == "RepelOsu"@
        || name == "SuddenDeathOsu"@
        || name == "SuddenDeathTaiko"@
        || name == "SuddenDeathCatch"@
        || name == "SuddenDeathMania"@
        || name == "TargetPracticeOsu"@
        || name == "WiggleOsu"@
        || name == "WindUpOsu"@
        || name == "WindUpTaiko"@
        || name == "WindUpCatch"@
        || name == "WindUpMania"@
        || name == "WindDownOsu"@
        || name == "WindDownTaiko"@
        || name == "WindDownCatch"@
        || name == "WindDownMania"@
}

/// Whether the setting `key` of the mod type `name` is understood.
pub open spec fn type_setting_allowed(name: Seq<char>, key: Seq<char>) -> bool {
    if name == "AccuracyChallengeOsu"@ {
        key == "accuracy_judge_mode"@ || key == "minimum_accuracy"@ || key == "restart"@
    } else if name == "AccuracyChallengeTaiko"@ {
        key == "accuracy_judge_mode"@ || key == "minimum_accuracy"@ || key == "restart"@
    } else if name == "AccuracyChallengeCatch"@ {
        key == "accuracy_judge_mode"@ || key == "minimum_accuracy"@ || key == "restart"@
    } else if name == "AccuracyChallengeMania"@ {
        key == "accuracy_judge_mode"@ || key == "minimum_accuracy"@ || key == "restart"@
    } else if name == "AdaptiveSpeedOsu"@ {
        key == "adjust_pitch"@ || key == "initial_rate"@
    } else if name == "AdaptiveSpeedTaiko"@ {
        key == "adjust_pitch"@ || key == "initial_rate"@
    } else if name == "AdaptiveSpeedMania"@ {
        key == "adjust_pitch"@ || key == "initial_rate"@
    } else if name == "ApproachDifferentOsu"@ {
        key == "scale"@ || key == "style"@
    } else if name == "BarrelRollOsu"@ {
        key == "direction"@ || key == "spin_speed"@
    } else if name == "ClassicOsu"@ {
        key == "always_play_tail_sample"@ || key == "classic_health"@ || key == "classic_note_lock"@ || key == "fade_hit_circle_early"@ || key == "no_slider_head_accuracy"@
    } else if name == "CoverMania"@ {
        key == "coverage"@ || key == "direction"@
    } else if name == "DaycoreOsu"@ {
        key == "speed_change"@
    } else if name == "DaycoreTaiko"@ {
        key == "speed_change"@
    } else if name == "DaycoreCatch"@ {
        key == "speed_change"@
    } else if name == "DaycoreMania"@ {
        key == "speed_change"@
    } else if name == "DeflateOsu"@ {
        key == "start_scale"@
    } else if name == "DepthOsu"@ {
        key == "max_depth"@ || key == "show_approach_circles"@
    } else if name == "DifficultyAdjustOsu"@ {
        key == "approach_rate"@ || key == "circle_size"@ || key == "drain_rate"@ || key == "extended_limits"@ || key == "overall_difficulty"@
    } else if name == "DifficultyAdjustCatch"@ {
        key == "approach_rate"@ || key == "circle_size"@ || key == "drain_rate"@ || key == "extended_limits"@ || key == "hard_rock_offsets"@ || key == "overall_difficulty"@
    } else if name == "DifficultyAdjustTaiko"@ {
        key == "drain_rate"@ || key == "extended_limits"@ || key == "overall_difficulty"@ || key == "scroll_speed"@
    } else if name == "DifficultyAdjustMania"@ {
        key == "drain_rate"@ || key == "extended_limits"@ || key == "overall_difficulty"@
    } else if name == "DoubleTimeOsu"@ {
        key == "adjust_pitch"@ || key == "speed_change"@
    } else if name == "DoubleTimeTaiko"@ {
        key == "adjust_pitch"@ || key == "speed_change"@
    } else if name == "DoubleTimeCatch"@ {
        key == "adjust_pitch"@ || key == "speed_change"@
    } else if name == "DoubleTimeMania"@ {
        key == "adjust_pitch"@ || key == "speed_change"@
    } else if name == "EasyOsu"@ {
        key == "retries"@
    } else if name == "EasyCatch"@ {
        key == "retries"@
    } else if name == "EasyMania"@ {
        key == "retries"@
    } else if name == "FlashlightOsu"@ {
        key == "combo_based_size"@ || key == "follow_delay"@ || key == "size_multiplier"@
    } else if name == "FlashlightTaiko"@ {
        key == "combo_based_size"@ || key == "size_multiplier"@
    } else if name == "FlashlightCatch"@ {
        key == "combo_based_size"@ || key == "size_multiplier"@
    } else if name == "FlashlightMania"@ {
        key == "combo_based_size"@ || key == "size_multiplier"@
    } else if name == "GrowOsu"@ {
        key == "start_scale"@
    } else if name == "HalfTimeOsu"@ {
        key == "adjust_pitch"@ || key == "speed_change"@
    } else if name == "HalfTimeTaiko"@ {
        key == "adjust_pitch"@ || key == "speed_change"@
    } else if name == "HalfTimeCatch"@ {
        key == "adjust_pitch"@ || key == "speed_change"@
    } else if name == "HalfTimeMania"@ {
        key == "adjust_pitch"@ || key == "speed_change"@
    } else if name == "HiddenOsu"@ {
        key == "only_fade_approach_circles"@
    } else if name == "MagnetisedOsu"@ {
        key == "attraction_strength"@
    } else if name == "MirrorOsu"@ {
        key == "reflection"@
    } else if name == "MutedOsu"@ {
        key == "affects_hit_sounds"@ || key == "enable_metronome"@ || key == "inverse_muting"@ || key == "mute_combo_count"@
    } else if name == "MutedTaiko"@ {
        key == "affects_hit_sounds"@ || key == "enable_metronome"@ || key == "inverse_muting"@ || key == "mute_combo_count"@
    } else if name == "MutedCatch"@ {
        key == "affects_hit_sounds"@ || key == "enable_metronome"@ || key == "inverse_muting"@ || key == "mute_combo_count"@
    } else if name == "MutedMania"@ {
        key == "affects_hit_sounds"@ || key == "enable_metronome"@ || key == "inverse_muting"@ || key == "mute_combo_count"@
    } else if name == "NightcoreOsu"@ {
        key == "speed_change"@
    } else if name == "NightcoreTaiko"@ {
        key == "speed_change"@
    } else if name == "NightcoreCatch"@ {
        key == "speed_change"@
    } else if name == "NightcoreMania"@ {
        key == "speed_change"@
    } else if name == "NoScopeOsu"@ {
        key == "hidden_combo_count"@
    } else if name == "NoScopeCatch"@ {
        key == "hidden_combo_count"@
    } else if name == "PerfectOsu"@ {
        key == "restart"@
    } else if name == "PerfectTaiko"@ {
        key == "restart"@
    } else if name == "PerfectCatch"@ {
        key == "restart"@
    } else if name == "PerfectMania"@ {
        key == "restart"@
    } else if name == "RandomOsu"@ {
        key == "angle_sharpness"@ || key == "seed"@
    } else if name == "RandomTaiko"@ {
        key == "seed"@
    } else if name == "RandomMania"@ {
        key == "seed"@
    } else if name == "RepelOsu"@ {
        key == "repulsion_strength"@
    } else if name == "SuddenDeathOsu"@ {
        key == "restart"@
    } else if name == "SuddenDeathTaiko"@ {
        key == "restart"@
    } else if name == "SuddenDeathCatch"@ {
        key == "restart"@
    } else if name == "SuddenDeathMania"@ {
        key == "restart"@
    } else if name == "TargetPracticeOsu"@ {
        key == "seed"@
    } else if name == "WiggleOsu"@ {
        key == "strength"@
    } else if name == "WindUpOsu"@ {
        key == "adjust_pitch"@ || key == "final_rate"@ || key == "initial_rate"@
    } else if name == "WindUpTaiko"@ {
        key == "adjust_pitch"@ || key == "final_rate"@ || key == "initial_rate"@
    } else if name == "WindUpCatch"@ {
        key == "adjust_pitch"@ || key == "final_rate"@ || key == "initial_rate"@
    } else if name == "WindUpMania"@ {
        key == "adjust_pitch"@ || key == "final_rate"@ || key == "initial_rate"@
    } else if name == "WindDownOsu"@ {
        key == "adjust_pitch"@ || key == "final_rate"@ || key == "initial_rate"@
    } else if name == "WindDownTaiko"@ {
        key == "adjust_pitch"@ || key == "final_rate"@ || key == "initial_rate"@
    } else if name == "WindDownCatch"@ {
        key == "adjust_pitch"@ || key == "final_rate"@ || key == "initial_rate"@
    } else if name == "WindDownMania"@ {
        key == "adjust_pitch"@ || key == "final_rate"@ || key == "initial_rate"@
    } else {
        false
    }
}

/// Whether the setting `key` of the mod type `name` is understood; `None`
/// when no setting of that mod type is.
pub fn type_lookup(name: &str, key: &str) -> (r: Option<bool>)
    ensures
        r is None <==> !handled_type(name@),
        r matches Some(ok) ==> ok == type_setting_allowed(name@, key@),
{
    if str_eq(name, "AccuracyChallengeOsu") {
        Some(str_eq(key, "accuracy_judge_mode") || str_eq(key, "minimum_accuracy") || str_eq(key, "restart"))
    } else if str_eq(name, "AccuracyChallengeTaiko") {
        Some(str_eq(key, "accuracy_judge_mode") || str_eq(key, "minimum_accuracy") || str_eq(key, "restart"))
    } else if str_eq(name, "AccuracyChallengeCatch") {
        Some(str_eq(key, "accuracy_judge_mode") || str_eq(key, "minimum_accuracy") || str_eq(key, "restart"))
    } else if str_eq(name, "AccuracyChallengeMania") {
        Some(str_eq(key, "accuracy_judge_mode") || str_eq(key, "minimum_accuracy") || str_eq(key, "restart"))
    } else if str_eq(name, "AdaptiveSpeedOsu") {
        Some(str_eq(key, "adjust_pitch") || str_eq(key, "initial_rate"))
    } else if str_eq(name, "AdaptiveSpeedTaiko") {
        Some(str_eq(key, "adjust_pitch") || str_eq(key, "initial_rate"))
    } else if str_eq(name, "AdaptiveSpeedMania") {
        Some(str_eq(key, "adjust_pitch") || str_eq(key, "initial_rate"))
    } else if str_eq(name, "ApproachDifferentOsu") {
        Some(str_eq(key, "scale") || str_eq(key, "style"))
    } else if str_eq(name, "BarrelRollOsu") {
        Some(str_eq(key, "direction") || str_eq(key, "spin_speed"))
    } else if str_eq(name, "ClassicOsu") {
        Some(str_eq(key, "always_play_tail_sample") || str_eq(key, "classic_health") || str_eq(key, "classic_note_lock") || str_eq(key, "fade_hit_circle_early") || str_eq(key, "no_slider_head_accuracy"))
    } else if str_eq(name, "CoverMania") {
        Some(str_eq(key, "coverage") || str_eq(key, "direction"))
    } else if str_eq(name, "DaycoreOsu") {
        Some(str_eq(key, "speed_change"))
    } else if str_eq(name, "DaycoreTaiko") {
        Some(str_eq(key, "speed_change"))
    } else if str_eq(name, "DaycoreCatch") {
        Some(str_eq(key, "speed_change"))
    } else if str_eq(name, "DaycoreMania") {
        Some(str_eq(key, "speed_change"))
    } else if str_eq(name, "DeflateOsu") {
        Some(str_eq(key, "start_scale"))
    } else if str_eq(name, "DepthOsu") {
        Some(str_eq(key, "max_depth") || str_eq(key, "show_approach_circles"))
    } else if str_eq(name, "DifficultyAdjustOsu") {
        Some(str_eq(key, "approach_rate") || str_eq(key, "circle_size") || str_eq(key, "drain_rate") || str_eq(key, "extended_limits") || str_eq(key, "overall_difficulty"))
    } else if str_eq(name, "DifficultyAdjustCatch") {
        Some(str_eq(key, "approach_rate") || str_eq(key, "circle_size") || str_eq(key, "drain_rate") || str_eq(key, "extended_limits") || str_eq(key, "hard_rock_offsets") || str_eq(key, "overall_difficulty"))
    } else if str_eq(name, "DifficultyAdjustTaiko") {
        Some(str_eq(key, "drain_rate") || str_eq(key, "extended_limits") || str_eq(key, "overall_difficulty") || str_eq(key, "scroll_speed"))
    } else if str_eq(name, "DifficultyAdjustMania") {
        Some(str_eq(key, "drain_rate") || str_eq(key, "extended_limits") || str_eq(key, "overall_difficulty"))
    } else if str_eq(name, "DoubleTimeOsu") {
        Some(str_eq(key, "adjust_pitch") || str_eq(key, "speed_change"))
    } else if str_eq(name, "DoubleTimeTaiko") {
        Some(str_eq(key, "adjust_pitch") || str_eq(key, "speed_change"))
    } else if str_eq(name, "DoubleTimeCatch") {
        Some(str_eq(key, "adjust_pitch") || str_eq(key, "speed_change"))
    } else if str_eq(name, "DoubleTimeMania") {
        Some(str_eq(key, "adjust_pitch") || str_eq(key, "speed_change"))
    } else if str_eq(name, "EasyOsu") {
        Some(str_eq(key, "retries"))
    } else if str_eq(name, "EasyCatch") {
        Some(str_eq(key, "retries"))
    } else if str_eq(name, "EasyMania") {
        Some(str_eq(key, "retries"))
    } else if str_eq(name, "FlashlightOsu") {
        Some(str_eq(key, "combo_based_size") || str_eq(key, "follow_delay") || str_eq(key, "size_multiplier"))
    } else if str_eq(name, "FlashlightTaiko") {
        Some(str_eq(key, "combo_based_size") || str_eq(key, "size_multiplier"))
    } else if str_eq(name, "FlashlightCatch") {
        Some(str_eq(key, "combo_based_size") || str_eq(key, "size_multiplier"))
    } else if str_eq(name, "FlashlightMania") {
        Some(str_eq(key, "combo_based_size") || str_eq(key, "size_multiplier"))
    } else if str_eq(name, "GrowOsu") {
        Some(str_eq(key, "start_scale"))
    } else if str_eq(name, "HalfTimeOsu") {
        Some(str_eq(key, "adjust_pitch") || str_eq(key, "speed_change"))
    } else if str_eq(name, "HalfTimeTaiko") {
        Some(str_eq(key, "adjust_pitch") || str_eq(key, "speed_change"))
    } else if str_eq(name, "HalfTimeCatch") {
        Some(str_eq(key, "adjust_pitch") || str_eq(key, "speed_change"))
    } else if str_eq(name, "HalfTimeMania") {
        Some(str_eq(key, "adjust_pitch") || str_eq(key, "speed_change"))
    } else if str_eq(name, "HiddenOsu") {
        Some(str_eq(key, "only_fade_approach_circles"))
    } else if str_eq(name, "MagnetisedOsu") {
        Some(str_eq(key, "attraction_strength"))
    } else if str_eq(name, "MirrorOsu") {
        Some(str_eq(key, "reflection"))
    } else if str_eq(name, "MutedOsu") {
        Some(str_eq(key, "affects_hit_sounds") || str_eq(key, "enable_metronome") || str_eq(key, "inverse_muting") || str_eq(key, "mute_combo_count"))
    } else if str_eq(name, "MutedTaiko") {
        Some(str_eq(key, "affects_hit_sounds") || str_eq(key, "enable_metronome") || str_eq(key, "inverse_muting") || str_eq(key, "mute_combo_count"))
    } else if str_eq(name, "MutedCatch") {
        Some(str_eq(key, "affects_hit_sounds") || str_eq(key, "enable_metronome") || str_eq(key, "inverse_muting") || str_eq(key, "mute_combo_count"))
    } else if str_eq(name, "MutedMania") {
        Some(str_eq(key, "affects_hit_sounds") || str_eq(key, "enable_metronome") || str_eq(key, "inverse_muting") || str_eq(key, "mute_combo_count"))
    } else if str_eq(name, "NightcoreOsu") {
        Some(str_eq(key, "speed_change"))
    } else if str_eq(name, "NightcoreTaiko") {
        Some(str_eq(key, "speed_change"))
    } else if str_eq(name, "NightcoreCatch") {
        Some(str_eq(key, "speed_change"))
    } else if str_eq(name, "NightcoreMania") {
        Some(str_eq(key, "speed_change"))
    } else if str_eq(name, "NoScopeOsu") {
        Some(str_eq(key, "hidden_combo_count"))
    } else if str_eq(name, "NoScopeCatch") {
        Some(str_eq(key, "hidden_combo_count"))
    } else if str_eq(name, "PerfectOsu") {
        Some(str_eq(key, "restart"))
    } else if str_eq(name, "PerfectTaiko") {
        Some(str_eq(key, "restart"))
    } else if str_eq(name, "PerfectCatch") {
        Some(str_eq(key, "restart"))
    } else if str_eq(name, "PerfectMania") {
        Some(str_eq(key, "restart"))
    } else if str_eq(name, "RandomOsu") {
        Some(str_eq(key, "angle_sharpness") || str_eq(key, "seed"))
    } else if str_eq(name, "RandomTaiko") {
        Some(str_eq(key, "seed"))
    } else if str_eq(name, "RandomMania") {
        Some(str_eq(key, "seed"))
    } else if str_eq(name, "RepelOsu") {
        Some(str_eq(key, "repulsion_strength"))
    } else if str_eq(name, "SuddenDeathOsu") {
        Some(str_eq(key, "restart"))
    } else if str_eq(name, "SuddenDeathTaiko") {
        Some(str_eq(key, "restart"))
    } else if str_eq(name, "SuddenDeathCatch") {
        Some(str_eq(key, "restart"))
    } else if str_eq(name, "SuddenDeathMania") {
        Some(str_eq(key, "restart"))
    } else if str_eq(name, "TargetPracticeOsu") {
        Some(str_eq(key, "seed"))
    } else if str_eq(name, "WiggleOsu") {
        Some(str_eq(key, "strength"))
    } else if str_eq(name, "WindUpOsu") {
        Some(str_eq(key, "adjust_pitch") || str_eq(key, "final_rate") || str_eq(key, "initial_rate"))
    } else if str_eq(name, "WindUpTaiko") {
        Some(str_eq(key, "adjust_pitch") || str_eq(key, "final_rate") || str_eq(key, "initial_rate"))
    } else if str_eq(name, "WindUpCatch") {
        Some(str_eq(key, "adjust_pitch") || str_eq(key, "final_rate") || str_eq(key, "initial_rate"))
    } else if str_eq(name, "WindUpMania") {
        Some(str_eq(key, "adjust_pitch") || str_eq(key, "final_rate") || str_eq(key, "initial_rate"))
    } else if str_eq(name, "WindDownOsu") {
        Some(str_eq(key, "adjust_pitch") || str_eq(key, "final_rate") || str_eq(key, "initial_rate"))
    } else if str_eq(name, "WindDownTaiko") {
        Some(str_eq(key, "adjust_pitch") || str_eq(key, "final_rate") || str_eq(key, "initial_rate"))
    } else if str_eq(name, "WindDownCatch") {
        Some(str_eq(key, "adjust_pitch") || str_eq(key, "final_rate") || str_eq(key, "initial_rate"))
    } else if str_eq(name, "WindDownMania") {
        Some(str_eq(key, "adjust_pitch") || str_eq(key, "final_rate") || str_eq(key, "initial_rate"))
    } else {
        None
    }
}

/// The lengths of the mod type names, and the letters that tell apart
/// names of equal length.
proof fn lemma_type_name_shapes()
    ensures
        "AccuracyChallengeCatch"@.len() == 22,
        "AccuracyChallengeMania"@.len() == 22,
        "AccuracyChallengeOsu"@.len() == 20,
        "AccuracyChallengeTaiko"@.len() == 22,
        "AdaptiveSpeedMania"@.len() == 18,
        "AdaptiveSpeedOsu"@.len() == 16,
        "AdaptiveSpeedTaiko"@.len() == 18,
        "ApproachDifferentOsu"@.len() == 20,
        "BarrelRollOsu"@.len() == 13,
        "ClassicOsu"@.len() == 10,
        "CoverMania"@.len() == 10,
        "DaycoreCatch"@.len() == 12,
        "DaycoreMania"@.len() == 12,
        "DaycoreOsu"@.len() == 10,
        "DaycoreTaiko"@.len() == 12,
        "DeflateOsu"@.len() == 10,
        "DepthOsu"@.len() == 8,
        "DifficultyAdjustCatch"@.len() == 21,
        "DifficultyAdjustMania"@.len() == 21,
        "DifficultyAdjustOsu"@.len() == 19,
        "DifficultyAdjustTaiko"@.len() == 21,
        "DoubleTimeCatch"@.len() == 15,
        "DoubleTimeMania"@.len() == 15,
        "DoubleTimeOsu"@.len() == 13,
        "DoubleTimeTaiko"@.len() == 15,
        "EasyCatch"@.len() == 9,
        "EasyMania"@.len() == 9,
        "EasyOsu"@.len() == 7,
        "FlashlightCatch"@.len() == 15,
        "FlashlightMania"@.len() == 15,
        "FlashlightOsu"@.len() == 13,
        "FlashlightTaiko"@.len() == 15,
        "GrowOsu"@.len() == 7,
        "HalfTimeCatch"@.len() == 13,
        "HalfTimeMania"@.len() == 13,
        "HalfTimeOsu"@.len() == 11,
        "HalfTimeTaiko"@.len() == 13,
        "HiddenOsu"@.len() == 9,
        "MagnetisedOsu"@.len() == 13,
        "MirrorOsu"@.len() == 9,
        "MutedCatch"@.len() == 10,
        "MutedMania"@.len() == 10,
        "MutedOsu"@.len() == 8,
        "MutedTaiko"@.len() == 10,
        "NightcoreCatch"@.len() == 14,
        "NightcoreMania"@.len() == 14,
        "NightcoreOsu"@.len() == 12,
        "NightcoreTaiko"@.len() == 14,
        "NoScopeCatch"@.len() == 12,
        "NoScopeOsu"@.len() == 10,
        "PerfectCatch"@.len() == 12,
        "PerfectMania"@.len() == 12,
        "PerfectOsu"@.len() == 10,
        "PerfectTaiko"@.len() == 12,
        "RandomMania"@.len() == 11,
        "RandomOsu"@.len() == 9,
        "RandomTaiko"@.len() == 11,
        "RepelOsu"@.len() == 8,
        "SuddenDeathCatch"@.len() == 16,
        "SuddenDeathMania"@.len() == 16,
        "SuddenDeathOsu"@.len() == 14,
        "SuddenDeathTaiko"@.len() == 16,
        "TargetPracticeOsu"@.len() == 17,
        "WiggleOsu"@.len() == 9,
        "WindDownCatch"@.len() == 13,
        "WindDownMania"@.len() == 13,
        "WindDownOsu"@.len() == 11,
        "WindDownTaiko"@.len() == 13,
        "WindUpCatch"@.len() == 11,
        "WindUpMania"@.len() == 11,
        "WindUpOsu"@.len() == 9,
        "WindUpTaiko"@.len() == 11,
        "AccuracyChallengeCatch"@[17] == 'C',
        "AccuracyChallengeMania"@[17] == 'M',
        "AccuracyChallengeOsu"@[1] == 'c',
        "AccuracyChallengeTaiko"@[17] == 'T',
        "AdaptiveSpeedMania"@[13] == 'M',
        "AdaptiveSpeedOsu"@[0] == 'A',
        "AdaptiveSpeedTaiko"@[13] == 'T',
        "ApproachDifferentOsu"@[1] == 'p',
        "BarrelRollOsu"@[0] == 'B',
        "ClassicOsu"@[0] == 'C',
        "ClassicOsu"@[1] == 'l',
        "CoverMania"@[0] == 'C',
        "CoverMania"@[1] == 'o',
        "DaycoreCatch"@[0] == 'D',
        "DaycoreCatch"@[7] == 'C',
        "DaycoreMania"@[0] == 'D',
        "DaycoreMania"@[7] == 'M',
        "DaycoreOsu"@[0] == 'D',
        "DaycoreOsu"@[1] == 'a',
        "DaycoreTaiko"@[0] == 'D',
        "DaycoreTaiko"@[7] == 'T',
        "DeflateOsu"@[0] == 'D',
        "DeflateOsu"@[1] == 'e',
        "DepthOsu"@[0] == 'D',
        "DifficultyAdjustCatch"@[16] == 'C',
        "DifficultyAdjustMania"@[16] == 'M',
        "DifficultyAdjustTaiko"@[16] == 'T',
        "DoubleTimeCatch"@[0] == 'D',
        "DoubleTimeCatch"@[10] == 'C',
        "DoubleTimeMania"@[0] == 'D',
        "DoubleTimeMania"@[10] == 'M',
        "DoubleTimeOsu"@[0] == 'D',
        "DoubleTimeTaiko"@[0] == 'D',
        "DoubleTimeTaiko"@[10] == 'T',
        "EasyCatch"@[0] == 'E',
        "EasyCatch"@[4] == 'C',
        "EasyMania"@[0] == 'E',
        "EasyMania"@[4] == 'M',
        "EasyOsu"@[0] == 'E',
        "FlashlightCatch"@[0] == 'F',
        "FlashlightCatch"@[10] == 'C',
        "FlashlightMania"@[0] == 'F',
        "FlashlightMania"@[10] == 'M',
        "FlashlightOsu"@[0] == 'F',
        "FlashlightTaiko"@[0] == 'F',
        "FlashlightTaiko"@[10] == 'T',
        "GrowOsu"@[0] == 'G',
        "HalfTimeCatch"@[0] == 'H',
        "HalfTimeCatch"@[8] == 'C',
        "HalfTimeMania"@[0] == 'H',
        "HalfTimeMania"@[8] == 'M',
        "HalfTimeOsu"@[0] == 'H',
        "HalfTimeTaiko"@[0] == 'H',
        "HalfTimeTaiko"@[8] == 'T',
        "HiddenOsu"@[0] == 'H',
        "MagnetisedOsu"@[0] == 'M',
        "MirrorOsu"@[0] == 'M',
        "MutedCatch"@[0] == 'M',
        "MutedCatch"@[5] == 'C',
        "MutedMania"@[0] == 'M',
        "MutedMania"@[5] == 'M',
        "MutedOsu"@[0] == 'M',
        "MutedTaiko"@[0] == 'M',
        "MutedTaiko"@[5] == 'T',
        "NightcoreCatch"@[0] == 'N',
        "NightcoreCatch"@[9] == 'C',
        "NightcoreMania"@[0] == 'N',
        "NightcoreMania"@[9] == 'M',
        "NightcoreOsu"@[0] == 'N',
        "NightcoreOsu"@[1] == 'i',
        "NightcoreTaiko"@[0] == 'N',
        "NightcoreTaiko"@[9] == 'T',
        "NoScopeCatch"@[0] == 'N',
        "NoScopeCatch"@[1] == 'o',
        "NoScopeOsu"@[0] == 'N',
        "PerfectCatch"@[0] == 'P',
        "PerfectCatch"@[7] == 'C',
        "PerfectMania"@[0] == 'P',
        "PerfectMania"@[7] == 'M',
        "PerfectOsu"@[0] == 'P',
        "PerfectTaiko"@[0] == 'P',
        "PerfectTaiko"@[7] == 'T',
        "RandomMania"@[0] == 'R',
        "RandomMania"@[6] == 'M',
        "RandomOsu"@[0] == 'R',
        "RandomTaiko"@[0] == 'R',
        "RandomTaiko"@[6] == 'T',
        "RepelOsu"@[0] == 'R',
        "SuddenDeathCatch"@[0] == 'S',
        "SuddenDeathCatch"@[11] == 'C',
        "SuddenDeathMania"@[0] == 'S',
        "SuddenDeathMania"@[11] == 'M',
        "SuddenDeathOsu"@[0] == 'S',
        "SuddenDeathTaiko"@[0] == 'S',
        "SuddenDeathTaiko"@[11] == 'T',
        "WiggleOsu"@[0] == 'W',
        "WiggleOsu"@[2] == 'g',
        "WindDownCatch"@[0] == 'W',
        "WindDownCatch"@[8] == 'C',
        "WindDownMania"@[0] == 'W',
        "WindDownMania"@[8] == 'M',
        "WindDownOsu"@[0] == 'W',
        "WindDownOsu"@[4] == 'D',
        "WindDownTaiko"@[0] == 'W',
        "WindDownTaiko"@[8] == 'T',
        "WindUpCatch"@[0] == 'W',
        "WindUpCatch"@[4] == 'U',
        "WindUpCatch"@[6] == 'C',
        "WindUpMania"@[0] == 'W',
        "WindUpMania"@[4] == 'U',
        "WindUpMania"@[6] == 'M',
        "WindUpOsu"@[0] == 'W',
        "WindUpOsu"@[2] == 'n',
        "WindUpTaiko"@[0] == 'W',
        "WindUpTaiko"@[4] == 'U',
        "WindUpTaiko"@[6] == 'T',
{
    reveal_strlit("AccuracyChallengeCatch");
    reveal_strlit("AccuracyChallengeMania");
    reveal_strlit("AccuracyChallengeOsu");
    reveal_strlit("AccuracyChallengeTaiko");
    reveal_strlit("AdaptiveSpeedMania");
    reveal_strlit("AdaptiveSpeedOsu");
    reveal_strlit("AdaptiveSpeedTaiko");
    reveal_strlit("ApproachDifferentOsu");
    reveal_strlit("BarrelRollOsu");
    reveal_strlit("ClassicOsu");
    reveal_strlit("CoverMania");
    reveal_strlit("DaycoreCatch");
    reveal_strlit("DaycoreMania");
    reveal_strlit("DaycoreOsu");
    reveal_strlit("DaycoreTaiko");
    reveal_strlit("DeflateOsu");
    reveal_strlit("DepthOsu");
    reveal_strlit("DifficultyAdjustCatch");
    reveal_strlit("DifficultyAdjustMania");
    reveal_strlit("DifficultyAdjustOsu");
    reveal_strlit("DifficultyAdjustTaiko");
    reveal_strlit("DoubleTimeCatch");
    reveal_strlit("DoubleTimeMania");
    reveal_strlit("DoubleTimeOsu");
    reveal_strlit("DoubleTimeTaiko");
    reveal_strlit("EasyCatch");
    reveal_strlit("EasyMania");
    reveal_strlit("EasyOsu");
    reveal_strlit("FlashlightCatch");
    reveal_strlit("FlashlightMania");
    reveal_strlit("FlashlightOsu");
    reveal_strlit("FlashlightTaiko");
    reveal_strlit("GrowOsu");
    reveal_strlit("HalfTimeCatch");
    reveal_strlit("HalfTimeMania");
    reveal_strlit("HalfTimeOsu");
    reveal_strlit("HalfTimeTaiko");
    reveal_strlit("HiddenOsu");
    reveal_strlit("MagnetisedOsu");
    reveal_strlit("MirrorOsu");
    reveal_strlit("MutedCatch");
    reveal_strlit("MutedMania");
    reveal_strlit("MutedOsu");
    reveal_strlit("MutedTaiko");
    reveal_strlit("NightcoreCatch");
    reveal_strlit("NightcoreMania");
    reveal_strlit("NightcoreOsu");
    reveal_strlit("NightcoreTaiko");
    reveal_strlit("NoScopeCatch");
    reveal_strlit("NoScopeOsu");
    reveal_strlit("PerfectCatch");
    reveal_strlit("PerfectMania");
    reveal_strlit("PerfectOsu");
    reveal_strlit("PerfectTaiko");
    reveal_strlit("RandomMania");
    reveal_strlit("RandomOsu");
    reveal_strlit("RandomTaiko");
    reveal_strlit("RepelOsu");
    reveal_strlit("SuddenDeathCatch");
    reveal_strlit("SuddenDeathMania");
    reveal_strlit("SuddenDeathOsu");
    reveal_strlit("SuddenDeathTaiko");
    reveal_strlit("TargetPracticeOsu");
    reveal_strlit("WiggleOsu");
    reveal_strlit("WindDownCatch");
    reveal_strlit("WindDownMania");
    reveal_strlit("WindDownOsu");
    reveal_strlit("WindDownTaiko");
    reveal_strlit("WindUpCatch");
    reveal_strlit("WindUpMania");
    reveal_strlit("WindUpOsu");
    reveal_strlit("WindUpTaiko");
}

proof fn lemma_setting_group_0(name: Seq<char>, key: Seq<char>)
    requires
        name == "WindUpTaiko"@ || name == "WindUpOsu"@ || name == "WindUpMania"@ || name == "WindUpCatch"@,
    ensures
        handled_type(name),
        type_setting_allowed(name, key) <==> (key == "initial_rate"@ || key == "final_rate"@ || key == "adjust_pitch"@),
{
    lemma_type_name_shapes();
}

proof fn lemma_setting_group_1(name: Seq<char>, key: Seq<char>)
    requires
        name == "WindDownTaiko"@ || name == "WindDownOsu"@ || name == "WindDownMania"@ || name == "WindDownCatch"@,
    ensures
        handled_type(name),
        type_setting_allowed(name, key) <==> (key == "initial_rate"@ || key == "final_rate"@ || key == "adjust_pitch"@),
{
    lemma_type_name_shapes();
}

proof fn lemma_setting_group_2(name: Seq<char>, key: Seq<char>)
    requires
        name == "WiggleOsu"@,
    ensures
        handled_type(name),
        type_setting_allowed(name, key) <==> (key == "strength"@),
{
    lemma_type_name_shapes();
}

proof fn lemma_setting_group_3(name: Seq<char>, key: Seq<char>)
    requires
        name == "TargetPracticeOsu"@,
    ensures
        handled_type(name),
        type_setting_allowed(name, key) <==> (key == "seed"@),
{
    lemma_type_name_shapes();
}

proof fn lemma_setting_group_4(name: Seq<char>, key: Seq<char>)
    requires
        name == "SuddenDeathTaiko"@ || name == "SuddenDeathOsu"@ || name == "SuddenDeathMania"@ || name == "SuddenDeathCatch"@,
    ensures
        handled_type(name),
        type_setting_allowed(name, key) <==> (key == "restart"@),
{
    lemma_type_name_shapes();
}

proof fn lemma_setting_group_5(name: Seq<char>, key: Seq<char>)
    requires
        name == "RepelOsu"@,
    ensures
        handled_type(name),
        type_setting_allowed(name, key) <==> (key == "repulsion_strength"@),
{
    lemma_type_name_shapes();
}

proof fn lemma_setting_group_6(name: Seq<char>, key: Seq<char>)
    requires
        name == "RandomTaiko"@ || name == "RandomMania"@,
    ensures
        handled_type(name),
        type_setting_allowed(name, key) <==> (key == "seed"@),
{
    lemma_type_name_shapes();
}

proof fn lemma_setting_group_7(name: Seq<char>, key: Seq<char>)
    requires
        name == "RandomOsu"@,
    ensures
        handled_type(name),
        type_setting_allowed(name, key) <==> (key == "seed"@ || key == "angle_sharpness"@),
{
    lemma_type_name_shapes();
}

proof fn lemma_setting_group_8(name: Seq<char>, key: Seq<char>)
    requires
        name == "PerfectTaiko"@ || name == "PerfectOsu"@ || name == "PerfectMania"@ || name == "PerfectCatch"@,
    ensures
        handled_type(name),
        type_setting_allowed(name, key) <==> (key == "restart"@),
{
    lemma_type_name_shapes();
}

proof fn lemma_setting_group_9(name: Seq<char>, key: Seq<char>)
    requires
        name == "NoScopeOsu"@ || name == "NoScopeCatch"@,
    ensures
        handled_type(name),
        type_setting_allowed(name, key) <==> (key == "hidden_combo_count"@),
{
    lemma_type_name_shapes();
}

proof fn lemma_setting_group_10(name: Seq<char>, key: Seq<char>)
    requires
        name == "NightcoreTaiko"@ || name == "NightcoreOsu"@ || name == "NightcoreMania"@ || name == "NightcoreCatch"@,
    ensures
        handled_type(name),
        type_setting_allowed(name, key) <==> (key == "speed_change"@),
{
    lemma_type_name_shapes();
}

proof fn lemma_setting_group_11(name: Seq<char>, key: Seq<char>)
    requires
        name == "MutedTaiko"@ || name == "MutedOsu"@ || name == "MutedMania"@ || name == "MutedCatch"@,
    ensures
        handled_type(name),
        type_setting_allowed(name, key) <==> (key == "mute_combo_count"@ || key == "inverse_muting"@ || key == "enable_metronome"@ || key == "affects_hit_sounds"@),
{
    lemma_type_name_shapes();
}

proof fn lemma_setting_group_12(name: Seq<char>, key: Seq<char>)
    requires
        name == "MirrorOsu"@,
    ensures
        handled_type(name),
        type_setting_allowed(name, key) <==> (key == "reflection"@),
{
    lemma_type_name_shapes();
}

proof fn lemma_setting_group_13(name: Seq<char>, key: Seq<char>)
    requires
        name == "MagnetisedOsu"@,
    ensures
        handled_type(name),
        type_setting_allowed(name, key) <==> (key == "attraction_strength"@),
{
    lemma_type_name_shapes();
}

proof fn lemma_setting_group_14(name: Seq<char>, key: Seq<char>)
    requires
        name == "HiddenOsu"@,
    ensures
        handled_type(name),
        type_setting_allowed(name, key) <==> (key == "only_fade_approach_circles"@),
{
    lemma_type_name_shapes();
}

proof fn lemma_setting_group_15(name: Seq<char>, key: Seq<char>)
    requires
        name == "HalfTimeTaiko"@ || name == "HalfTimeOsu"@ || name == "HalfTimeMania"@ || name == "HalfTimeCatch"@,
    ensures
        handled_type(name),
        type_setting_allowed(name, key) <==> (key == "speed_change"@ || key == "adjust_pitch"@),
{
    lemma_type_name_shapes();
}

proof fn lemma_setting_group_16(name: Seq<char>, key: Seq<char>)
    requires
        name == "GrowOsu"@,
    ensures
        handled_type(name),
        type_setting_allowed(name, key) <==> (key == "start_scale"@),
{
    lemma_type_name_shapes();
}

proof fn lemma_setting_group_17(name: Seq<char>, key: Seq<char>)
    requires
        name == "FlashlightTaiko"@ || name == "FlashlightMania"@ || name == "FlashlightCatch"@,
    ensures
        handled_type(name),
        type_setting_allowed(name, key) <==> (key == "size_multiplier"@ || key == "combo_based_size"@),
{
    lemma_type_name_shapes();
}

proof fn lemma_setting_group_18(name: Seq<char>, key: Seq<char>)
    requires
        name == "FlashlightOsu"@,
    ensures
        handled_type(name),
        type_setting_allowed(name, key) <==> (key == "size_multiplier"@ || key == "follow_delay"@ || key == "combo_based_size"@),
{
    lemma_type_name_shapes();
}

proof fn lemma_setting_group_19(name: Seq<char>, key: Seq<char>)
    requires
        name == "EasyOsu"@ || name == "EasyMania"@ || name == "EasyCatch"@,
    ensures
        handled_type(name),
        type_setting_allowed(name, key) <==> (key == "retries"@),
{
    lemma_type_name_shapes();
}

proof fn lemma_setting_group_20(name: Seq<char>, key: Seq<char>)
    requires
        name == "DoubleTimeTaiko"@ || name == "DoubleTimeOsu"@ || name == "DoubleTimeMania"@ || name == "DoubleTimeCatch"@,
    ensures
        handled_type(name),
        type_setting_allowed(name, key) <==> (key == "speed_change"@ || key == "adjust_pitch"@),
{
    lemma_type_name_shapes();
}

proof fn lemma_setting_group_21(name: Seq<char>, key: Seq<char>)
    requires
        name == "DifficultyAdjustTaiko"@,
    ensures
        handled_type(name),
        type_setting_allowed(name, key) <==> (key == "scroll_speed"@ || key == "overall_difficulty"@ || key == "extended_limits"@ || key == "drain_rate"@),
{
    lemma_type_name_shapes();
}

proof fn lemma_setting_group_22(name: Seq<char>, key: Seq<char>)
    requires
        name == "DifficultyAdjustOsu"@,
    ensures
        handled_type(name),
        type_setting_allowed(name, key) <==> (key == "overall_difficulty"@ || key == "extended_limits"@ || key == "drain_rate"@ || key == "circle_size"@ || key == "approach_rate"@),
{
    lemma_type_name_shapes();
}

proof fn lemma_setting_group_23(name: Seq<char>, key: Seq<char>)
    requires
        name == "DifficultyAdjustMania"@,
    ensures
        handled_type(name),
        type_setting_allowed(name, key) <==> (key == "overall_difficulty"@ || key == "extended_limits"@ || key == "drain_rate"@),
{
    lemma_type_name_shapes();
}

proof fn lemma_setting_group_24(name: Seq<char>, key: Seq<char>)
    requires
        name == "DifficultyAdjustCatch"@,
    ensures
        handled_type(name),
        type_setting_allowed(name, key) <==> (key == "overall_difficulty"@ || key == "hard_rock_offsets"@ || key == "extended_limits"@ || key == "drain_rate"@ || key == "circle_size"@ || key == "approach_rate"@),
{
    lemma_type_name_shapes();
}

proof fn lemma_setting_group_25(name: Seq<char>, key: Seq<char>)
    requires
        name == "DepthOsu"@,
    ensures
        handled_type(name),
        type_setting_allowed(name, key) <==> (key == "show_approach_circles"@ || key == "max_depth"@),
{
    lemma_type_name_shapes();
}

proof fn lemma_setting_group_26(name: Seq<char>, key: Seq<char>)
    requires
        name == "DeflateOsu"@,
    ensures
        handled_type(name),
        type_setting_allowed(name, key) <==> (key == "start_scale"@),
{
    lemma_type_name_shapes();
}

proof fn lemma_setting_group_27(name: Seq<char>, key: Seq<char>)
    requires
        name == "DaycoreTaiko"@ || name == "DaycoreOsu"@ || name == "DaycoreMania"@ || name == "DaycoreCatch"@,
    ensures
        handled_type(name),
        type_setting_allowed(name, key) <==> (key == "speed_change"@),
{
    lemma_type_name_shapes();
}

proof fn lemma_setting_group_28(name: Seq<char>, key: Seq<char>)
    requires
        name == "CoverMania"@,
    ensures
        handled_type(name),
        type_setting_allowed(name, key) <==> (key == "direction"@ || key == "coverage"@),
{
    lemma_type_name_shapes();
}

proof fn lemma_setting_group_29(name: Seq<char>, key: Seq<char>)
    requires
        name == "ClassicOsu"@,
    ensures
        handled_type(name),
        type_setting_allowed(name, key) <==> (key == "no_slider_head_accuracy"@ || key == "fade_hit_circle_early"@ || key == "classic_note_lock"@ || key == "classic_health"@ || key == "always_play_tail_sample"@),
{
    lemma_type_name_shapes();
}

proof fn lemma_setting_group_30(name: Seq<char>, key: Seq<char>)
    requires
        name == "BarrelRollOsu"@,
    ensures
        handled_type(name),
        type_setting_allowed(name, key) <==> (key == "spin_speed"@ || key == "direction"@),
{
    lemma_type_name_shapes();
}

proof fn lemma_setting_group_31(name: Seq<char>, key: Seq<char>)
    requires
        name == "ApproachDifferentOsu"@,
    ensures
        handled_type(name),
        type_setting_allowed(name, key) <==> (key == "style"@ || key == "scale"@),
{
    lemma_type_name_shapes();
}

proof fn lemma_setting_group_32(name: Seq<char>, key: Seq<char>)
    requires
        name == "AdaptiveSpeedTaiko"@ || name == "AdaptiveSpeedOsu"@ || name == "AdaptiveSpeedMania"@,
    ensures
        handled_type(name),
        type_setting_allowed(name, key) <==> (key == "initial_rate"@ || key == "adjust_pitch"@),
{
    lemma_type_name_shapes();
}

proof fn lemma_setting_group_33(name: Seq<char>, key: Seq<char>)
    requires
        name == "AccuracyChallengeTaiko"@ || name == "AccuracyChallengeOsu"@ || name == "AccuracyChallengeMania"@ || name == "AccuracyChallengeCatch"@,
    ensures
        handled_type(name),
        type_setting_allowed(name, key) <==> (key == "restart"@ || key == "minimum_accuracy"@ || key == "accuracy_judge_mode"@),
{
    lemma_type_name_shapes();
}

/// The setting keys that conversion understands, mod type by mod type. Each
/// group of mod types accepts exactly its listed keys; no other mod type is
/// handled, and only a handled mod type has a setting that is understood.
pub proof fn lemma_setting_table(name: Seq<char>, key: Seq<char>)
    ensures
        (name == "WindUpTaiko"@ || name == "WindUpOsu"@ || name == "WindUpMania"@ || name == "WindUpCatch"@) ==> handled_type(name) && (type_setting_allowed(name, key) <==> (key == "initial_rate"@ || key == "final_rate"@ || key == "adjust_pitch"@)),
        (name == "WindDownTaiko"@ || name == "WindDownOsu"@ || name == "WindDownMania"@ || name == "WindDownCatch"@) ==> handled_type(name) && (type_setting_allowed(name, key) <==> (key == "initial_rate"@ || key == "final_rate"@ || key == "adjust_pitch"@)),
        (name == "WiggleOsu"@) ==> handled_type(name) && (type_setting_allowed(name, key) <==> (key == "strength"@)),
        (name == "TargetPracticeOsu"@) ==> handled_type(name) && (type_setting_allowed(name, key) <==> (key == "seed"@)),
        (name == "SuddenDeathTaiko"@ || name == "SuddenDeathOsu"@ || name == "SuddenDeathMania"@ || name == "SuddenDeathCatch"@) ==> handled_type(name) && (type_setting_allowed(name, key) <==> (key == "restart"@)),
        (name == "RepelOsu"@) ==> handled_type(name) && (type_setting_allowed(name, key) <==> (key == "repulsion_strength"@)),
        (name == "RandomTaiko"@ || name == "RandomMania"@) ==> handled_type(name) && (type_setting_allowed(name, key) <==> (key == "seed"@)),
        (name == "RandomOsu"@) ==> handled_type(name) && (type_setting_allowed(name, key) <==> (key == "seed"@ || key == "angle_sharpness"@)),
        (name == "PerfectTaiko"@ || name == "PerfectOsu"@ || name == "PerfectMania"@ || name == "PerfectCatch"@) ==> handled_type(name) && (type_setting_allowed(name, key) <==> (key == "restart"@)),
        (name == "NoScopeOsu"@ || name == "NoScopeCatch"@) ==> handled_type(name) && (type_setting_allowed(name, key) <==> (key == "hidden_combo_count"@)),
        (name == "NightcoreTaiko"@ || name == "NightcoreOsu"@ || name == "NightcoreMania"@ || name == "NightcoreCatch"@) ==> handled_type(name) && (type_setting_allowed(name, key) <==> (key == "speed_change"@)),
        (name == "MutedTaiko"@ || name == "MutedOsu"@ || name == "MutedMania"@ || name == "MutedCatch"@) ==> handled_type(name) && (type_setting_allowed(name, key) <==> (key == "mute_combo_count"@ || key == "inverse_muting"@ || key == "enable_metronome"@ || key == "affects_hit_sounds"@)),
        (name == "MirrorOsu"@) ==> handled_type(name) && (type_setting_allowed(name, key) <==> (key == "reflection"@)),
        (name == "MagnetisedOsu"@) ==> handled_type(name) && (type_setting_allowed(name, key) <==> (key == "attraction_strength"@)),
        (name == "HiddenOsu"@) ==> handled_type(name) && (type_setting_allowed(name, key) <==> (key == "only_fade_approach_circles"@)),
        (name == "HalfTimeTaiko"@ || name == "HalfTimeOsu"@ || name == "HalfTimeMania"@ || name == "HalfTimeCatch"@) ==> handled_type(name) && (type_setting_allowed(name, key) <==> (key == "speed_change"@ || key == "adjust_pitch"@)),
        (name == "GrowOsu"@) ==> handled_type(name) && (type_setting_allowed(name, key) <==> (key == "start_scale"@)),
        (name == "FlashlightTaiko"@ || name == "FlashlightMania"@ || name == "FlashlightCatch"@) ==> handled_type(name) && (type_setting_allowed(name, key) <==> (key == "size_multiplier"@ || key == "combo_based_size"@)),
        (name == "FlashlightOsu"@) ==> handled_type(name) && (type_setting_allowed(name, key) <==> (key == "size_multiplier"@ || key == "follow_delay"@ || key == "combo_based_size"@)),
        (name == "EasyOsu"@ || name == "EasyMania"@ || name == "EasyCatch"@) ==> handled_type(name) && (type_setting_allowed(name, key) <==> (key == "retries"@)),
        (name == "DoubleTimeTaiko"@ || name == "DoubleTimeOsu"@ || name == "DoubleTimeMania"@ || name == "DoubleTimeCatch"@) ==> handled_type(name) && (type_setting_allowed(name, key) <==> (key == "speed_change"@ || key == "adjust_pitch"@)),
        (name == "DifficultyAdjustTaiko"@) ==> handled_type(name) && (type_setting_allowed(name, key) <==> (key == "scroll_speed"@ || key == "overall_difficulty"@ || key == "extended_limits"@ || key == "drain_rate"@)),
        (name == "DifficultyAdjustOsu"@) ==> handled_type(name) && (type_setting_allowed(name, key) <==> (key == "overall_difficulty"@ || key == "extended_limits"@ || key == "drain_rate"@ || key == "circle_size"@ || key == "approach_rate"@)),
        (name == "DifficultyAdjustMania"@) ==> handled_type(name) && (type_setting_allowed(name, key) <==> (key == "overall_difficulty"@ || key == "extended_limits"@ || key == "drain_rate"@)),
        (name == "DifficultyAdjustCatch"@) ==> handled_type(name) && (type_setting_allowed(name, key) <==> (key == "overall_difficulty"@ || key == "hard_rock_offsets"@ || key == "extended_limits"@ || key == "drain_rate"@ || key == "circle_size"@ || key == "approach_rate"@)),
        (name == "DepthOsu"@) ==> handled_type(name) && (type_setting_allowed(name, key) <==> (key == "show_approach_circles"@ || key == "max_depth"@)),
        (name == "DeflateOsu"@) ==> handled_type(name) && (type_setting_allowed(name, key) <==> (key == "start_scale"@)),
        (name == "DaycoreTaiko"@ || name == "DaycoreOsu"@ || name == "DaycoreMania"@ || name == "DaycoreCatch"@) ==> handled_type(name) && (type_setting_allowed(name, key) <==> (key == "speed_change"@)),
        (name == "CoverMania"@) ==> handled_type(name) && (type_setting_allowed(name, key) <==> (key == "direction"@ || key == "coverage"@)),
        (name == "ClassicOsu"@) ==> handled_type(name) && (type_setting_allowed(name, key) <==> (key == "no_slider_head_accuracy"@ || key == "fade_hit_circle_early"@ || key == "classic_note_lock"@ || key == "classic_health"@ || key == "always_play_tail_sample"@)),
        (name == "BarrelRollOsu"@) ==> handled_type(name) && (type_setting_allowed(name, key) <==> (key == "spin_speed"@ || key == "direction"@)),
        (name == "ApproachDifferentOsu"@) ==> handled_type(name) && (type_setting_allowed(name, key) <==> (key == "style"@ || key == "scale"@)),
        (name == "AdaptiveSpeedTaiko"@ || name == "AdaptiveSpeedOsu"@ || name == "AdaptiveSpeedMania"@) ==> handled_type(name) && (type_setting_allowed(name, key) <==> (key == "initial_rate"@ || key == "adjust_pitch"@)),
        (name == "AccuracyChallengeTaiko"@ || name == "AccuracyChallengeOsu"@ || name == "AccuracyChallengeMania"@ || name == "AccuracyChallengeCatch"@) ==> handled_type(name) && (type_setting_allowed(name, key) <==> (key == "restart"@ || key == "minimum_accuracy"@ || key == "accuracy_judge_mode"@)),
        handled_type(name) ==> (
            (name == "WindUpTaiko"@ || name == "WindUpOsu"@ || name == "WindUpMania"@ || name == "WindUpCatch"@)
            || (name == "WindDownTaiko"@ || name == "WindDownOsu"@ || name == "WindDownMania"@ || name == "WindDownCatch"@)
            || (name == "WiggleOsu"@)
            || (name == "TargetPracticeOsu"@)
            || (name == "SuddenDeathTaiko"@ || name == "SuddenDeathOsu"@ || name == "SuddenDeathMania"@ || name == "SuddenDeathCatch"@)
            || (name == "RepelOsu"@)
            || (name == "RandomTaiko"@ || name == "RandomMania"@)
            || (name == "RandomOsu"@)
            || (name == "PerfectTaiko"@ || name == "PerfectOsu"@ || name == "PerfectMania"@ || name == "PerfectCatch"@)
            || (name == "NoScopeOsu"@ || name == "NoScopeCatch"@)
            || (name == "NightcoreTaiko"@ || name == "NightcoreOsu"@ || name == "NightcoreMania"@ || name == "NightcoreCatch"@)
            || (name == "MutedTaiko"@ || name == "MutedOsu"@ || name == "MutedMania"@ || name == "MutedCatch"@)
            || (name == "MirrorOsu"@)
            || (name == "MagnetisedOsu"@)
            || (name == "HiddenOsu"@)
            || (name == "HalfTimeTaiko"@ || name == "HalfTimeOsu"@ || name == "HalfTimeMania"@ || name == "HalfTimeCatch"@)
            || (name == "GrowOsu"@)
            || (name == "FlashlightTaiko"@ || name == "FlashlightMania"@ || name == "FlashlightCatch"@)
            || (name == "FlashlightOsu"@)
            || (name == "EasyOsu"@ || name == "EasyMania"@ || name == "EasyCatch"@)
            || (name == "DoubleTimeTaiko"@ || name == "DoubleTimeOsu"@ || name == "DoubleTimeMania"@ || name == "DoubleTimeCatch"@)
            || (name == "DifficultyAdjustTaiko"@)
            || (name == "DifficultyAdjustOsu"@)
            || (name == "DifficultyAdjustMania"@)
            || (name == "DifficultyAdjustCatch"@)
            || (name == "DepthOsu"@)
            || (name == "DeflateOsu"@)
            || (name == "DaycoreTaiko"@ || name == "DaycoreOsu"@ || name == "DaycoreMania"@ || name == "DaycoreCatch"@)
            || (name == "CoverMania"@)
            || (name == "ClassicOsu"@)
            || (name == "BarrelRollOsu"@)
            || (name == "ApproachDifferentOsu"@)
            || (name == "AdaptiveSpeedTaiko"@ || name == "AdaptiveSpeedOsu"@ || name == "AdaptiveSpeedMania"@)
            || (name == "AccuracyChallengeTaiko"@ || name == "AccuracyChallengeOsu"@ || name == "AccuracyChallengeMania"@ || name == "AccuracyChallengeCatch"@)
        ),
        type_setting_allowed(name, key) ==> handled_type(name),
{
    if name == "WindUpTaiko"@ || name == "WindUpOsu"@ || name == "WindUpMania"@ || name == "WindUpCatch"@ {
        lemma_setting_group_0(name, key);
    }
    if name == "WindDownTaiko"@ || name == "WindDownOsu"@ || name == "WindDownMania"@ || name == "WindDownCatch"@ {
        lemma_setting_group_1(name, key);
    }
    if name == "WiggleOsu"@ {
        lemma_setting_group_2(name, key);
    }
    if name == "TargetPracticeOsu"@ {
        lemma_setting_group_3(name, key);
    }
    if name == "SuddenDeathTaiko"@ || name == "SuddenDeathOsu"@ || name == "SuddenDeathMania"@ || name == "SuddenDeathCatch"@ {
        lemma_setting_group_4(name, key);
    }
    if name == "RepelOsu"@ {
        lemma_setting_group_5(name, key);
    }
    if name == "RandomTaiko"@ || name == "RandomMania"@ {
        lemma_setting_group_6(name, key);
    }
    if name == "RandomOsu"@ {
        lemma_setting_group_7(name, key);
    }
    if name == "PerfectTaiko"@ || name == "PerfectOsu"@ || name == "PerfectMania"@ || name == "PerfectCatch"@ {
        lemma_setting_group_8(name, key);
    }
    if name == "NoScopeOsu"@ || name == "NoScopeCatch"@ {
        lemma_setting_group_9(name, key);
    }
    if name == "NightcoreTaiko"@ || name == "NightcoreOsu"@ || name == "NightcoreMania"@ || name == "NightcoreCatch"@ {
        lemma_setting_group_10(name, key);
    }
    if name == "MutedTaiko"@ || name == "MutedOsu"@ || name == "MutedMania"@ || name == "MutedCatch"@ {
        lemma_setting_group_11(name, key);
    }
    if name == "MirrorOsu"@ {
        lemma_setting_group_12(name, key);
    }
    if name == "MagnetisedOsu"@ {
        lemma_setting_group_13(name, key);
    }
    if name == "HiddenOsu"@ {
        lemma_setting_group_14(name, key);
    }
    if name == "HalfTimeTaiko"@ || name == "HalfTimeOsu"@ || name == "HalfTimeMania"@ || name == "HalfTimeCatch"@ {
        lemma_setting_group_15(name, key);
    }
    if name == "GrowOsu"@ {
        lemma_setting_group_16(name, key);
    }
    if name == "FlashlightTaiko"@ || name == "FlashlightMania"@ || name == "FlashlightCatch"@ {
        lemma_setting_group_17(name, key);
    }
    if name == "FlashlightOsu"@ {
        lemma_setting_group_18(name, key);
    }
    if name == "EasyOsu"@ || name == "EasyMania"@ || name == "EasyCatch"@ {
        lemma_setting_group_19(name, key);
    }
    if name == "DoubleTimeTaiko"@ || name == "DoubleTimeOsu"@ || name == "DoubleTimeMania"@ || name == "DoubleTimeCatch"@ {
        lemma_setting_group_20(name, key);
    }
    if name == "DifficultyAdjustTaiko"@ {
        lemma_setting_group_21(name, key);
    }
    if name == "DifficultyAdjustOsu"@ {
        lemma_setting_group_22(name, key);
    }
    if name == "DifficultyAdjustMania"@ {
        lemma_setting_group_23(name, key);
    }
    if name == "DifficultyAdjustCatch"@ {
        lemma_setting_group_24(name, key);
    }
    if name == "DepthOsu"@ {
        lemma_setting_group_25(name, key);
    }
    if name == "DeflateOsu"@ {
        lemma_setting_group_26(name, key);
    }
    if name == "DaycoreTaiko"@ || name == "DaycoreOsu"@ || name == "DaycoreMania"@ || name == "DaycoreCatch"@ {
        lemma_setting_group_27(name, key);
    }
    if name == "CoverMania"@ {
        lemma_setting_group_28(name, key);
    }
    if name == "ClassicOsu"@ {
        lemma_setting_group_29(name, key);
    }
    if name == "BarrelRollOsu"@ {
        lemma_setting_group_30(name, key);
    }
    if name == "ApproachDifferentOsu"@ {
        lemma_setting_group_31(name, key);
    }
    if name == "AdaptiveSpeedTaiko"@ || name == "AdaptiveSpeedOsu"@ || name == "AdaptiveSpeedMania"@ {
        lemma_setting_group_32(name, key);
    }
    if name == "AccuracyChallengeTaiko"@ || name == "AccuracyChallengeOsu"@ || name == "AccuracyChallengeMania"@ || name == "AccuracyChallengeCatch"@ {
        lemma_setting_group_33(name, key);
    }
}

} // verus!
