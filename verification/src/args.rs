//! Settings supplied at process start.

use vstd::prelude::*;

verus! {

/// Port that is listened on when none is given.
pub const DEFAULT_PORT: u16 = 8080;

/// Time-to-live of the cache, in seconds, when none is given: half an hour.
pub const DEFAULT_TTL_CACHE: u64 = 1800;

/// The configuration surface: both values are fixed once the process runs.
#[derive(Clone, Copy, Debug, PartialEq, Eq)]
pub struct Args {
    /// The port number to listen on.
    pub port: u16,
    /// Cache TTL in seconds.
    pub ttl_cache: u64,
}

impl Default for Args {
    fn default() -> (args: Self)
        ensures
            args.port == DEFAULT_PORT,
            args.ttl_cache == DEFAULT_TTL_CACHE,
    {
        Args { port: DEFAULT_PORT, ttl_cache: DEFAULT_TTL_CACHE }
    }
}

} // verus!
