//! Keeps the two notracking blocklist files of a DNS resolver fresh: the
//! rules by which a fetched list is accepted, the order of the steps that
//! install it, and the supervision of a command run afterwards.
//!
//! The library decides and computes; it does no input or output. The
//! program around it fetches, writes, renames, starts the command and
//! logs, as `refresh` and `supervise` ask it to.

pub mod forward;
pub mod kind;
pub mod refresh;
pub mod supervise;
pub mod text;
pub mod validate;
