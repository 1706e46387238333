//! What can stop planning or unboxing.

use crate::package::error::{ConfigRead, ConfigWrite};
use crate::path::{ComponentPath, PathView};
use crate::plan::{LinkView, PlannedLink};
use vstd::prelude::*;

verus! {

/// Why no plan could be made.
#[derive(Debug)]
pub enum PlanningError {
    /// A configuration inside the package could not be read.
    ConfigParse(ConfigRead),
    /// A configuration could not be saved.
    ConfigWrite(ConfigWrite),
    /// Nothing in the package is to be linked.
    EmptyPlan,
    /// The package tree could not be walked.  The text says why.
    Walkdir(String),
}

/// A filesystem operation that did not succeed.
#[derive(Debug)]
pub enum IoFailure {
    /// The destination has no directory above it that could be created.
    InvalidFilename,
    /// The operating system refused.  The text says why.
    Os(String),
}

/// Why unboxing stopped.
#[derive(Debug)]
pub enum UnboxError {
    /// The destination of the link exists and is a symbolic link, which is
    /// not adopted.
    AdoptSymlink(PlannedLink),
    /// `problem_link` is a symbolic link into the package, above the source
    /// of `pl`.
    CircularReference { problem_link: ComponentPath, pl: PlannedLink },
    /// A configuration could not be read.
    ConfigParse(ConfigRead),
    /// A configuration could not be saved.
    ConfigWrite(ConfigWrite),
    /// The plan was only to be shown.
    DryRun,
    /// An operation for the link failed.
    Io { pl: PlannedLink, source: IoFailure },
    /// There is no relative path from the directory `base` to `path`.
    PathDiffError { path: ComponentPath, base: ComponentPath },
    /// No plan could be made.
    Planning(PlanningError),
    /// The destination of the link exists.
    TargetAlreadyExists(PlannedLink),
}

/// The mathematical value of an [`UnboxError`].
pub enum UnboxErrorView {
    AdoptSymlink(LinkView),
    CircularReference { problem_link: PathView, pl: LinkView },
    ConfigParse(ConfigRead),
    ConfigWrite(ConfigWrite),
    DryRun,
    Io { pl: LinkView, source: IoFailure },
    PathDiffError { path: PathView, base: PathView },
    Planning(PlanningError),
    TargetAlreadyExists(LinkView),
}

impl View for UnboxError {
    type V = UnboxErrorView;

    open spec fn view(&self) -> UnboxErrorView {
        match *self {
            UnboxError::AdoptSymlink(pl) => UnboxErrorView::AdoptSymlink(pl@),
            UnboxError::CircularReference { problem_link, pl } => UnboxErrorView::CircularReference {
                problem_link: problem_link@,
                pl: pl@,
            },
            UnboxError::ConfigParse(e) => UnboxErrorView::ConfigParse(e),
            UnboxError::ConfigWrite(e) => UnboxErrorView::ConfigWrite(e),
            UnboxError::DryRun => UnboxErrorView::DryRun,
            UnboxError::Io { pl, source } => UnboxErrorView::Io { pl: pl@, source },
            UnboxError::PathDiffError { path, base } => UnboxErrorView::PathDiffError {
                path: path@,
                base: base@,
            },
            UnboxError::Planning(e) => UnboxErrorView::Planning(e),
            UnboxError::TargetAlreadyExists(pl) => UnboxErrorView::TargetAlreadyExists(pl@),
        }
    }
}

} // verus!
