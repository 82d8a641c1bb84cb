//! Quests: an auto-detecting todo list.
pub mod api;
pub mod auth;
pub mod board;
pub mod clock;
pub mod context;
pub mod detection;
pub mod engine;
pub mod interval;
pub mod interval_laws;
pub mod json;
pub mod judge;
pub mod judge_laws;
pub mod judge_results;
pub mod laws;
pub mod operations;
pub mod plan;
pub mod prefs;
pub mod quest;
pub mod quest_laws;
pub mod quest_results;
pub mod settings_laws;
pub mod surface_laws;
pub mod surface_results;
pub mod text;
pub mod text_laws;
pub mod verdict;
pub mod verdict_laws;
