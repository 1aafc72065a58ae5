//! Reads the verbose branch listing of a git repository into a typed model:
//! the checked-out head and the set of the other branches, each classified by
//! its relation to a remote counterpart.
pub mod ordered_set;
pub mod program;
pub mod text;
pub mod args;
pub mod commands;
pub mod error;
pub mod execute;
pub mod git;
