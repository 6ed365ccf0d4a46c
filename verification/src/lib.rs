//! A command-line health-check library: given a list of URLs, each is probed
//! with one HTTP GET, and the process verdict is healthy exactly when every
//! probed URL answered with a status in the 200..300 range.
//!
//! This crate holds the verified decision logic: status classification, the
//! short-circuiting evaluation loop, the fixed client configuration, the
//! accept-all certificate policy, and construction of a root certificate
//! store that skips unparsable entries. The surrounding binary performs the
//! network calls and feeds their outcomes to this library.

pub mod check;
pub mod config;
pub mod messages;
pub mod roots;
