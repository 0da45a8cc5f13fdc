//! The rules of a catalog application: its licensing above all, and the
//! tidying of what its users enter.

pub mod commands;
pub mod db;
pub mod license;
pub mod settings;
pub mod text;
pub mod time;
