//! Fleet compliance scanning: the verified core.
//!
//! The store's records and their wire tokens, the rule registry, the
//! marshalling of rule verdicts, the per-device scan worker as a state
//! machine, the bookkeeping of a pass, the regex capability handed to
//! rule scripts, and the password envelope.

pub mod config;
pub mod crypto;
pub mod models;
pub mod pass;
pub mod registry;
pub mod script_regex;
pub mod verdict;
pub mod worker;
