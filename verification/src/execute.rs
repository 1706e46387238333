//! Unboxing: from a planned link, and what is in its way, to the operations
//! that put the link in place.
//!
//! Nothing here touches a filesystem.  For each link the caller looks at the
//! destination, asks [`UnboxPlan::unbox`] what to do, performs the operations
//! in order, and stops at the first one that fails.

use crate::cli::ExistingFileStrategy;
use crate::error::{IoFailure, UnboxError, UnboxErrorView};
use crate::package::LinkType;
use crate::path::{
    file_name, is_absolute, is_normal_name, is_plain_absolute, parent, root_name, with_file_name,
    ComponentPath, PathView,
};
use crate::plan::{LinkView, PlannedLink, UnboxPlan};
use crate::relative::{
    diff_paths_result, lemma_relative_round_trip, lexical_clean, relative_from,
};
use vstd::prelude::*;
use vstd::string::StringExecFns;

verus! {

/// One operation on the filesystem.
#[derive(Debug, PartialEq, Eq)]
pub enum FsOp {
    /// Copy the contents of the file `from` onto the file `to`.
    CopyFile { from: ComponentPath, to: ComponentPath },
    /// Remove the file at the path.
    RemoveFile(ComponentPath),
    /// Give the file `from` the path `to`.
    Rename { from: ComponentPath, to: ComponentPath },
    /// Create the directory at the path, and those above it that are
    /// missing.
    CreateDirAll(ComponentPath),
    /// Create at `link` a symbolic link that holds `original`.
    Symlink { original: ComponentPath, link: ComponentPath },
    /// Create at `link` a hard link to the file `original`.
    HardLink { original: ComponentPath, link: ComponentPath },
}

/// The mathematical value of an [`FsOp`].
pub enum OpView {
    CopyFile { from: PathView, to: PathView },
    RemoveFile(PathView),
    Rename { from: PathView, to: PathView },
    CreateDirAll(PathView),
    Symlink { original: PathView, link: PathView },
    HardLink { original: PathView, link: PathView },
}

impl View for FsOp {
    type V = OpView;

    open spec fn view(&self) -> OpView {
        match *self {
            FsOp::CopyFile { from, to } => OpView::CopyFile { from: from@, to: to@ },
            FsOp::RemoveFile(path) => OpView::RemoveFile(path@),
            FsOp::Rename { from, to } => OpView::Rename { from: from@, to: to@ },
            FsOp::CreateDirAll(path) => OpView::CreateDirAll(path@),
            FsOp::Symlink { original, link } => OpView::Symlink {
                original: original@,
                link: link@,
            },
            FsOp::HardLink { original, link } => OpView::HardLink {
                original: original@,
                link: link@,
            },
        }
    }
}

impl Clone for FsOp {
    fn clone(&self) -> (r: FsOp)
        ensures
            r@ == self@,
    {
        match self {
            FsOp::CopyFile { from, to } => FsOp::CopyFile { from: from.clone(), to: to.clone() },
            FsOp::RemoveFile(path) => FsOp::RemoveFile(path.clone()),
            FsOp::Rename { from, to } => FsOp::Rename { from: from.clone(), to: to.clone() },
            FsOp::CreateDirAll(path) => FsOp::CreateDirAll(path.clone()),
            FsOp::Symlink { original, link } => FsOp::Symlink {
                original: original.clone(),
                link: link.clone(),
            },
            FsOp::HardLink { original, link } => FsOp::HardLink {
                original: original.clone(),
                link: link.clone(),
            },
        }
    }
}

/// The values of a run of operations.
pub open spec fn ops_view(v: Seq<FsOp>) -> Seq<OpView> {
    Seq::new(v.len(), |i: int| v[i]@)
}

/// What the caller saw at a link's destination.
#[derive(Clone, Copy, Debug, PartialEq, Eq, Structural)]
pub struct DestProbe {
    /// Something exists there.  A symbolic link that leads nowhere does not
    /// count.
    pub exists: bool,
    /// What is there is a symbolic link.
    pub is_symlink: bool,
}

/// What to do for one link: perform `ops` in order, stopping with
/// [`UnboxError::Io`] at the first that fails; then, if `failure` holds an
/// error, stop with it.
#[derive(Debug)]
pub struct LinkActions {
    pub ops: Vec<FsOp>,
    pub failure: Option<UnboxError>,
}

/// The mathematical value of a [`LinkActions`].
pub struct ActionsView {
    pub ops: Seq<OpView>,
    pub failure: Option<UnboxErrorView>,
}

impl View for LinkActions {
    type V = ActionsView;

    open spec fn view(&self) -> ActionsView {
        ActionsView {
            ops: ops_view(self.ops@),
            failure: match self.failure {
                Some(e) => Some(e@),
                None => None,
            },
        }
    }
}

/// The suffix of the name that a file in the way is moved to.
pub open spec fn backup_suffix() -> Seq<char> {
    ".bak"@
}

/// Where a file in the way at `dest` is moved to: beside it, under its name
/// with `.bak` added.
pub open spec fn backup_path(dest: PathView) -> PathView {
    with_file_name(dest, file_name(dest)->0 + backup_suffix())
}

/// The path from the directory of `link.dest` to `link.src`, where both are
/// absolute, the destination has a directory above it, and there is such a
/// path.
pub open spec fn relative_source(link: LinkView) -> Option<PathView> {
    if is_absolute(link.src) && is_absolute(link.dest) && parent(link.dest) is Some {
        diff_paths_result(link.src, parent(link.dest)->0)
    } else {
        None
    }
}

/// The directory that a relative link to `link.src` is relative to, or the
/// destination itself where it has no directory above it.
pub open spec fn relative_base(link: LinkView) -> PathView {
    match parent(link.dest) {
        Some(dir) => dir,
        None => link.dest,
    }
}

/// What creates the link itself, once nothing is in the way.  If missing
/// directories are to be made, that comes first, and fails for a destination
/// with no directory above it.  Then comes the link of the planned type.
pub open spec fn creation(link: LinkView, create_dirs: bool) -> ActionsView {
    if create_dirs && parent(link.dest) is None {
        ActionsView {
            ops: Seq::empty(),
            failure: Some(UnboxErrorView::Io { pl: link, source: IoFailure::InvalidFilename }),
        }
    } else {
        let dirs = if create_dirs {
            seq![OpView::CreateDirAll(parent(link.dest)->0)]
        } else {
            Seq::empty()
        };
        match link.ty {
            LinkType::SymlinkAbsolute => ActionsView {
                ops: dirs.push(OpView::Symlink { original: link.src, link: link.dest }),
                failure: None,
            },
            LinkType::SymlinkRelative => match relative_source(link) {
                Some(relative) => ActionsView {
                    ops: dirs.push(OpView::Symlink { original: relative, link: link.dest }),
                    failure: None,
                },
                None => ActionsView {
                    ops: dirs,
                    failure: Some(
                        UnboxErrorView::PathDiffError {
                            path: link.src,
                            base: relative_base(link),
                        },
                    ),
                },
            },
            LinkType::HardLink => ActionsView {
                ops: dirs.push(OpView::HardLink { original: link.src, link: link.dest }),
                failure: None,
            },
        }
    }
}

/// What clears the way at a destination where something exists; `None` where
/// the link is to be skipped, an error where the run is to stop.
pub open spec fn clearing(efs: ExistingFileStrategy, link: LinkView, is_symlink: bool) -> Result<
    Option<Seq<OpView>>,
    UnboxErrorView,
> {
    match efs {
        ExistingFileStrategy::Adopt => if is_symlink {
            Err(UnboxErrorView::AdoptSymlink(link))
        } else {
            Ok(
                Some(
                    seq![
                        OpView::CopyFile { from: link.dest, to: link.src },
                        OpView::RemoveFile(link.dest),
                    ],
                ),
            )
        },
        ExistingFileStrategy::Ignore => Ok(None),
        ExistingFileStrategy::Move => Ok(
            Some(seq![OpView::Rename { from: link.dest, to: backup_path(link.dest) }]),
        ),
        ExistingFileStrategy::Overwrite => Ok(Some(seq![OpView::RemoveFile(link.dest)])),
        ExistingFileStrategy::ThrowError => Err(UnboxErrorView::TargetAlreadyExists(link)),
    }
}

/// What to do for `link` under the strategy `efs`, given what is at its
/// destination.
pub open spec fn link_actions(
    efs: ExistingFileStrategy,
    create_dirs: bool,
    link: LinkView,
    probe: DestProbe,
) -> ActionsView {
    if !probe.exists {
        creation(link, create_dirs)
    } else {
        match clearing(efs, link, probe.is_symlink) {
            Err(e) => ActionsView { ops: Seq::empty(), failure: Some(e) },
            Ok(None) => ActionsView { ops: Seq::empty(), failure: None },
            Ok(Some(ops)) => ActionsView {
                ops: ops + creation(link, create_dirs).ops,
                failure: creation(link, create_dirs).failure,
            },
        }
    }
}

impl PlannedLink {
    /// The path from the directory of the destination to the source.  There
    /// is none unless both are absolute and the destination has a directory
    /// above it.
    ///
    /// Where source and destination are each the root followed by ordinary
    /// names, there is such a path, and following it from the directory of
    /// the destination leads back to the source exactly.
    pub fn get_src_relative_to_dest(&self) -> (r: Option<ComponentPath>)
        ensures
            r is Some <==> relative_source(self@) is Some,
            r matches Some(p) ==> Some(p@) == relative_source(self@),
            is_plain_absolute(self@.src) && is_plain_absolute(self@.dest) && self@.dest.len() > 1
                ==> r is Some && r->0@ == relative_from(self@.src, self@.dest.drop_last())
                && lexical_clean(self@.dest.drop_last() + r->0@) == self@.src,
    {
        if !self.src.is_absolute() || !self.dest.is_absolute() {
            return None;
        }
        proof {
            if is_plain_absolute(self@.src) && is_plain_absolute(self@.dest) && self@.dest.len()
                > 1 {
                let dest = self@.dest;
                assert(is_normal_name(dest.last()));
                assert(dest.last() != root_name()) by {
                    if dest.last() == root_name() {
                        assert(root_name()[0] == '/');
                        assert(dest.last().contains('/'));
                    }
                }
                assert(is_plain_absolute(dest.drop_last())) by {
                    assert forall|i: int| 1 <= i < dest.drop_last().len() implies is_normal_name(
                        #[trigger] dest.drop_last()[i],
                    ) by {
                        assert(dest.drop_last()[i] == dest[i]);
                    }
                }
                lemma_relative_round_trip(self@.src, dest.drop_last());
            }
        }
        match self.dest.parent() {
            Some(dir) => self.src.relative_from(&dir),
            None => None,
        }
    }

    /// The operations that create this link, once nothing is in the way.
    pub fn unbox(&self, create_dirs: bool) -> (r: LinkActions)
        ensures
            r@ == creation(self@, create_dirs),
    {
        let mut ops: Vec<FsOp> = Vec::new();
        assert(ops_view(ops@) =~= Seq::empty());
        let above = self.dest.parent();
        if create_dirs {
            match &above {
                Some(dir) => {
                    ops.push(FsOp::CreateDirAll(dir.clone()));
                    assert(ops_view(ops@) =~= seq![OpView::CreateDirAll(parent(self@.dest)->0)]);
                },
                None => {
                    return LinkActions {
                        ops,
                        failure: Some(
                            UnboxError::Io { pl: self.clone(), source: IoFailure::InvalidFilename },
                        ),
                    };
                },
            }
        }
        let ghost dirs = ops_view(ops@);
        match self.ty {
            LinkType::SymlinkAbsolute => {
                ops.push(FsOp::Symlink { original: self.src.clone(), link: self.dest.clone() });
                assert(ops_view(ops@) =~= dirs.push(
                    OpView::Symlink { original: self@.src, link: self@.dest },
                ));
                LinkActions { ops, failure: None }
            },
            LinkType::SymlinkRelative => {
                match self.get_src_relative_to_dest() {
                    Some(relative) => {
                        ops.push(FsOp::Symlink { original: relative, link: self.dest.clone() });
                        assert(ops_view(ops@) =~= dirs.push(
                            OpView::Symlink { original: relative@, link: self@.dest },
                        ));
                        LinkActions { ops, failure: None }
                    },
                    None => {
                        let base = match above {
                            Some(dir) => dir,
                            None => self.dest.clone(),
                        };
                        LinkActions {
                            ops,
                            failure: Some(
                                UnboxError::PathDiffError { path: self.src.clone(), base },
                            ),
                        }
                    },
                }
            },
            LinkType::HardLink => {
                ops.push(FsOp::HardLink { original: self.src.clone(), link: self.dest.clone() });
                assert(ops_view(ops@) =~= dirs.push(
                    OpView::HardLink { original: self@.src, link: self@.dest },
                ));
                LinkActions { ops, failure: None }
            },
        }
    }

    /// Where a file in the way of this link is moved to.
    pub fn backup_dest(&self) -> (r: ComponentPath)
        requires
            file_name(self@.dest) is Some,
        ensures
            r@ == backup_path(self@.dest),
    {
        let mut name = match self.dest.file_name() {
            Some(name) => name.clone(),
            None => String::new(),
        };
        name.append(".bak");
        self.dest.with_file_name(name)
    }
}

impl UnboxPlan {
    /// What to do for the link at `index`, given what is at its destination.
    ///
    /// Where nothing exists there, the link is created.  Where something
    /// does, the plan's strategy decides: adopt it, unless it is a symbolic
    /// link, which stops the run; skip the link; move it aside; remove it; or
    /// stop the run.
    pub fn unbox(&self, index: usize, probe: DestProbe) -> (r: LinkActions)
        requires
            index < self@.links.len(),
            self@.efs == ExistingFileStrategy::Move && probe.exists ==> file_name(
                self@.links[index as int].dest,
            ) is Some,
        ensures
            r@ == link_actions(self@.efs, self@.create_dirs, self@.links[index as int], probe),
    {
        let pl = &self.links[index];
        assert(pl@ == self@.links[index as int]);
        if !probe.exists {
            return pl.unbox(self.create_dirs);
        }
        let mut ops: Vec<FsOp> = Vec::new();
        assert(ops_view(ops@) =~= Seq::empty());
        match self.efs {
            ExistingFileStrategy::Adopt => {
                if probe.is_symlink {
                    return LinkActions { ops, failure: Some(UnboxError::AdoptSymlink(pl.clone())) };
                }
                ops.push(FsOp::CopyFile { from: pl.dest.clone(), to: pl.src.clone() });
                ops.push(FsOp::RemoveFile(pl.dest.clone()));
                assert(ops_view(ops@) =~= seq![
                    OpView::CopyFile { from: pl@.dest, to: pl@.src },
                    OpView::RemoveFile(pl@.dest),
                ]);
            },
            ExistingFileStrategy::Ignore => {
                return LinkActions { ops, failure: None };
            },
            ExistingFileStrategy::Move => {
                ops.push(FsOp::Rename { from: pl.dest.clone(), to: pl.backup_dest() });
                assert(ops_view(ops@) =~= seq![
                    OpView::Rename { from: pl@.dest, to: backup_path(pl@.dest) },
                ]);
            },
            ExistingFileStrategy::Overwrite => {
                ops.push(FsOp::RemoveFile(pl.dest.clone()));
                assert(ops_view(ops@) =~= seq![OpView::RemoveFile(pl@.dest)]);
            },
            ExistingFileStrategy::ThrowError => {
                return LinkActions {
                    ops,
                    failure: Some(UnboxError::TargetAlreadyExists(pl.clone())),
                };
            },
        }
        let ghost cleared = ops_view(ops@);
        assert(clearing(self@.efs, pl@, probe.is_symlink) == Ok::<
            Option<Seq<OpView>>,
            UnboxErrorView,
        >(Some(cleared)));
        let made = pl.unbox(self.create_dirs);
        let mut rest = made.ops;
        let ghost made_ops = ops_view(rest@);
        ops.append(&mut rest);
        assert(ops_view(ops@) =~= cleared + made_ops);
        LinkActions { ops, failure: made.failure }
    }

    /// The error for an operation of the link at `index` that failed.
    pub fn io_error(&self, index: usize, source: IoFailure) -> (e: UnboxError)
        requires
            index < self@.links.len(),
        ensures
            e@ == (UnboxErrorView::Io { pl: self@.links[index as int], source }),
    {
        UnboxError::Io { pl: self.links[index].clone(), source }
    }
}

} // verus!
