//! Keeps a set of dotfiles in step with a manifest repository.
//!
//! The crate holds the decisions of the two workflows, install and sync:
//! which dotfiles are selected, whether hooks have to run, whether local
//! edits forbid an install, which version-control operations a sync is made
//! of, how a merge conflict is waited out, and how the recorded metadata
//! changes. Touching the disk, the terminal and the repository is left to
//! the caller, who performs the operations the library asks for.

pub mod cli;
pub mod error;
pub mod git;
pub mod structs;
pub mod table;
pub mod text;
pub mod utils;
