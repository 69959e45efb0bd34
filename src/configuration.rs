use vstd::prelude::*;

verus! {

/// How to reach the database.
pub struct DatabaseSettings {
    pub username: String,
    pub password: String,
    pub port: u16,
    pub host: String,
    pub database_name: String,
}

/// The process settings, read once at start.
pub struct Settings {
    pub database: DatabaseSettings,
    pub application_port: u16,
}

} // verus!
