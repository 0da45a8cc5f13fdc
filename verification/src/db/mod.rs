//! What is kept in the databases of the application.

pub mod settings_db;
