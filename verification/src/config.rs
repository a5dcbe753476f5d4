//! What a backend is configured with.

use vstd::prelude::*;

verus! {

/// A user name and a password.
#[derive(Clone, Debug)]
pub struct Credentials {
    pub username: String,
    pub password: String,
}

/// Pooling parameters. They are handed to the engine, which does the
/// pooling.
#[derive(Clone, Copy, Debug)]
pub struct PoolConfig {
    pub max_connections: u32,
    pub min_connections: u32,
    pub acquire_timeout_secs: u64,
}

/// The configuration of a driver-managed backend.
#[derive(Clone, Debug)]
pub struct AdbcConfig {
    pub driver_path: String,
    pub url: String,
    pub username: String,
    pub password: String,
    pub database: String,
    pub pool: PoolConfig,
    /// The time-to-live of stored rows in seconds. Without one, or with one
    /// of zero, nothing is evicted.
    pub ttl: Option<u64>,
}

} // verus!
