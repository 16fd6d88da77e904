//! A focus tool's core: it resolves user tokens (site names and presets)
//! into a deduplicated, ordered set of host names, merges those entries
//! into host-file content in an exactly reversible way, and drives the
//! timed apply-hold-restore session as a verified state machine.
//!
//! All file, process and timer work is left to the surrounding program;
//! this crate holds the pure logic and its proofs.

pub mod catalog;
pub mod errors;
pub mod hostfile;
pub mod resolve;
pub mod session;
pub mod timer;
