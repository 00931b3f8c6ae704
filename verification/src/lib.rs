//! Verified core of the AlphaRing launcher: path handling, Steam library
//! discovery, release selection, digest comparison and the decision logic of
//! the mod check, each stated over a mathematical model.

pub mod text;
pub mod platform;
pub mod app_paths;
pub mod library_folders;
pub mod steam_roots;
pub mod game_search;
pub mod digest;
pub mod launch;
pub mod release;
pub mod mod_check;
pub mod report;
