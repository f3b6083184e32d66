//! Decision logic of a tool that compares osu! difficulty and performance
//! attributes computed by osu-tools with those of rosu-pp.

pub mod assert_eq;
pub mod commands;
pub mod framing;
pub mod mod_table;
pub mod mode;
pub mod mods;
pub mod object;
pub mod progress;
pub mod recent_map;
pub mod score;
pub mod statistics;
pub mod text;
