//! The core of a service that answers "where is this host, approximately?"
//! from a cached lookup of its public address.
//!
//! One value, the current location, is fetched again and again from a slow
//! and unreliable lookup service, kept with a bound on its age, and read by
//! any number of queries without waiting for the network.
//!
//! - [`cache`] holds the entries and decides what is fresh; [`cache_laws`]
//!   states what holds of its reads, writes and sweeps.
//! - [`ipapi`] reads a location fix from the body of a lookup answer and
//!   decides whether it may be cached, with [`json`] for the calls into
//!   `serde_json`.
//! - [`retry`] decides how often a failed lookup is attempted again, and
//!   after what pause.
//! - [`refresh`] decides what the one writer of the cache does next.
//! - [`api`] builds the answers of the two queries.
//! - [`args`] holds the settings of the process, and [`clock`] reads the time.
//!
//! Fetching, sleeping, locking and serving HTTP are left to the program that
//! uses this library.

pub mod api;
pub mod args;
pub mod cache;
pub mod cache_laws;
pub mod clock;
pub mod ipapi;
pub mod json;
pub mod refresh;
pub mod retry;
