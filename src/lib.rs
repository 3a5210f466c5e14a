//! Repository awareness for a directory listing: discovers the enclosing Git
//! working tree, snapshots the status of every changed path once, and answers
//! per-file, per-directory and ignore-list queries against it.

pub mod flags;
pub mod path;
pub mod snapshot;
pub mod laws;
pub mod git;
