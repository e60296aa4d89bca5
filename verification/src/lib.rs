//! Lobby analysis for League of Legends: Riot ID handling, local client
//! lockfile parsing, champion-select player discovery, per-player form
//! profiles and the overall lobby verdict.

pub mod text;
pub mod json;
pub mod riot_id;
pub mod labels;
pub mod stats;
pub mod profile;
pub mod urls;
pub mod lockfile;
pub mod champ_select;
pub mod lcu;
pub mod ddragon;
pub mod matches;
pub mod lobby;
