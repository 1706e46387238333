//! A package-based symlink manager: the planning and execution rules.
//!
//! A *package* is a directory tree; a *target* is the directory its entries
//! should appear in.  This library decides which links to create, where each
//! one goes, and what to do when something is already in the way.  It never
//! touches the filesystem itself: a caller walks the tree, reads the
//! per-directory configurations and performs the operations, handing plain
//! values back and forth.
//!
//! - [`path`] and [`relative`] hold paths as lists of components, with the
//!   lexical operations on them.
//! - [`pattern`] holds the regular expressions that select entries.
//! - [`cli`] and [`package`] hold what the command line and a directory's
//!   configuration say, and how the first overrides the second.
//! - [`plan`] turns the entries of a package into the links to create;
//!   [`plan_laws`] says what holds of every plan.
//! - [`execute`] turns a link, and what is in its way, into operations on
//!   the filesystem; [`run`] takes a whole plan through them step by step;
//!   [`fs_model`] says what the operations amount to.
//! - [`display`] and [`utils`] write plans and paths out.
//! - [`expand`] splits a path that may hold environment variables.

pub mod cli;
pub mod display;
pub mod error;
pub mod execute;
pub mod expand;
pub mod fs_model;
pub mod package;
pub mod path;
pub mod pattern;
pub mod plan;
pub mod plan_laws;
pub mod rc;
pub mod relative;
pub mod run;
pub mod utils;
