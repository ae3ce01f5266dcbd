//! A read-through cache for one slow, rate-limited upstream resource.
//!
//! An entry keeps the bytes that were fetched last together with the moment at
//! which they go stale. A guarded entry serves fresh bytes to any number of
//! readers and lets one caller at a time fetch again once the bytes are stale.

pub mod payload;
pub mod clock;
pub mod error;
pub mod cached_bytes;
pub mod requests;
pub mod guard;
pub mod timed_string;
pub mod reply;
