//! A verified codec for the memcached ASCII (text) protocol.
//!
//! The library validates and serializes storage and retrieval commands into
//! the exact wire grammar memcached expects, and parses the line-oriented
//! response grammar (including multi-line `VALUE` blocks) back into
//! structured, typed results.  Networking and the command-line surface live
//! outside the library; everything here is pure string logic with proved
//! contracts.

pub mod dispatch;
pub mod parsers;
pub mod responses;
pub mod text;
