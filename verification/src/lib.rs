//! Locating and fetching the OpenBLAS source release.
//!
//! The crate holds the rules of the fetch: where the release lives, which
//! proxy setting wins, and in which order the steps of a fetch follow each
//! other. Network and file system work is left to the caller.

pub mod fetch;
pub mod proxy;
pub mod source;
