//! A small content-serving core: a concurrent cache of file names, text
//! snippets and image bytes for two parallel resource families, a pure router
//! that maps URL paths to a closed set of routes, and a dispatcher that turns
//! a route into a cache operation with a disk-read fallback.
//!
//! Everything here is verified; the surrounding HTTP server, filesystem
//! scanning and environment handling live outside the library and talk to it
//! through plain values.

use vstd::prelude::*;

pub mod cache;
pub mod config;
pub mod handlers;
pub mod responses;
pub mod routing;
pub mod server;
pub mod types;

verus! {

/// Everything a request-handling task needs: the configuration and a
/// shared handle to the cache.
pub struct AppState {
    pub config: config::Config,
    pub cache: cache::SharedCache,
}

impl AppState {
    pub fn new(config: config::Config, cache: cache::SharedCache) -> (r: AppState)
        ensures
            r.config == config,
            r.cache == cache,
    {
        AppState { config, cache }
    }
}

/// Errors surfaced by the request-handling core.
///
/// `FileError` carries a human-readable description of the disk failure;
/// `ConfigError` carries the offending setting's description.
#[derive(Debug)]
pub enum GaryError {
    NotFound,
    InvalidRoute,
    CacheError,
    FileError(String),
    ConfigError(String),
}

} // verus!
