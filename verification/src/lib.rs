//! Request validation, metadata caching and static-asset resolution for a
//! code playground's HTTP gateway.
//!
//! The gateway takes requests that say what to do with a piece of code,
//! turns them into commands for a sandbox, and sends back what the sandbox
//! answers. It also serves the front end's files and remembers for a while
//! what the sandbox reports about itself.
//!
//! Nothing in this crate opens a file, waits for a lock or has a clock of
//! its own. The clock, the file system, the sandbox and the gist service
//! are operations that the caller hands in. What each function does with
//! them is stated in its contract.
//!
//! - [`request`], [`response`], [`error`]: what travels on the wire, and
//!   its validation.
//! - [`sandbox`], [`gist`]: the vocabulary of the two outside services.
//! - [`cache`]: the slots that remember what the sandbox reported.
//! - [`assets`], [`paths`], [`cache_control`]: static files.
//! - [`handlers`]: what happens to a decoded request.
//! - [`config`]: the setup.

pub mod assets;
pub mod cache;
pub mod cache_control;
pub mod config;
pub mod error;
pub mod gist;
pub mod handlers;
pub mod paths;
pub mod request;
pub mod response;
pub mod sandbox;
pub mod text;

use vstd::prelude::*;

verus! {

/// Seconds in an hour: for how long a browser may remember that
/// cross-origin requests are allowed.
pub const ONE_HOUR_IN_SECONDS: u32 = 60 * 60;

/// Seconds in a day: for how long the front page may be cached.
pub const ONE_DAY_IN_SECONDS: u64 = 60 * 60 * 24;

/// Seconds in a year: for how long an asset may be cached.
pub const ONE_YEAR_IN_SECONDS: u64 = 60 * 60 * 24 * 365;

} // verus!
