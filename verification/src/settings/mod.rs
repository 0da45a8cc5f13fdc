//! The settings of a project, as kept in a file of their own.

pub mod settings_repository;
