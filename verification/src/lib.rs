//! Diagnostics for accessibility-bus traffic: selects signal messages whose
//! payload type signature is wrapped in one outer parenthesis pair (a single
//! structured payload the standard marshalling layer leaves undecoded), and
//! renders a human-readable diagnostic block for each such message.
//!
//! The bus connection, the live message stream and the remote lookups are
//! I/O and live outside this crate; every decision and every formatted line
//! is produced here, with a proved contract.

pub mod filter;
pub mod report;
pub mod signature;
