//! Application configuration shapes. How the values are loaded (files,
//! environment) lives outside the core; the core only consumes them.

use vstd::prelude::*;

verus! {

/// HTTP server settings.
#[derive(Debug, Clone)]
pub struct Server {
    pub host: String,
    pub port: i32,
    pub allowed_origins: Vec<String>,
}

/// Relational-store connection settings.
#[derive(Debug, Clone)]
pub struct Postgres {
    pub url: String,
}

/// Key-value-store connection settings.
#[derive(Debug, Clone)]
pub struct Redis {
    pub url: String,
}

/// The application configuration.
#[derive(Debug, Clone)]
pub struct Config {
    pub server: Server,
    pub postgres: Postgres,
    pub redis: Redis,
    pub version: String,
}

} // verus!
