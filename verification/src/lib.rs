//! Verified core of a certificate-based client for a regulatory reporting
//! platform: the challenge/response login protocol, the retry/backoff
//! discipline around network calls, the task registry with its eviction
//! rule, and the token persistence contract.
//!
//! All network, file and process work is performed by an unverified shell
//! around this crate; the decisions that drive it are made here, as plain
//! functions from values to values.

pub mod auth;
pub mod certs;
pub mod dates;
pub mod dispatch;
pub mod encode;
pub mod errors;
pub mod paths;
pub mod poll;
pub mod registry;
pub mod retry;
pub mod search;
pub mod subject;
pub mod text;
pub mod token;
pub mod urls;
