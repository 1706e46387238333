//! A model of the filesystem, to say what the operations of
//! [`crate::execute`] amount to.
//!
//! The model knows paths and what is at each: a file with its contents, a
//! directory, or a link.  It is spec only.  The laws below say, for each
//! strategy, what is at the source, at the destination and beside it once
//! the operations for a link have been performed in order.

use crate::cli::ExistingFileStrategy;
use crate::execute::{
    backup_path, creation, link_actions, relative_source, ActionsView, DestProbe, OpView,
};
use crate::package::LinkType;
use crate::path::{file_name, parent, starts_with, PathView};
use crate::plan::LinkView;
use vstd::prelude::*;

verus! {

/// What is at a path.
pub enum Node {
    /// A regular file with these contents.
    File(Seq<u8>),
    /// A directory.
    Dir,
    /// A symbolic link that holds this path.
    Symlink(PathView),
    /// A hard link to the file at this path.
    HardLink(PathView),
}

/// A filesystem: what is at each path that exists.
pub type Files = Map<PathView, Node>;

/// What the caller sees at `dest`.
pub open spec fn probe(fs: Files, dest: PathView) -> DestProbe {
    DestProbe {
        exists: fs.dom().contains(dest),
        is_symlink: fs.dom().contains(dest) && fs[dest] is Symlink,
    }
}

/// Nothing but directories is in the way of creating the directory `dir` and
/// those above it.
pub open spec fn can_create_dirs(fs: Files, dir: PathView) -> bool {
    forall|q: PathView|
        #![trigger starts_with(dir, q)]
        fs.dom().contains(q) && 0 < q.len() && starts_with(dir, q) ==> fs[q] is Dir
}

/// `fs` with the directory `dir`, and those above it, where they were
/// missing.
pub open spec fn with_dirs(fs: Files, dir: PathView) -> Files {
    Map::new(
        |q: PathView| fs.dom().contains(q) || (0 < q.len() && starts_with(dir, q)),
        |q: PathView|
            if fs.dom().contains(q) {
                fs[q]
            } else {
                Node::Dir
            },
    )
}

/// A link can be created at `link`: nothing is there, and the directory it
/// goes into exists.
pub open spec fn can_link_at(fs: Files, link: PathView) -> bool {
    &&& !fs.dom().contains(link)
    &&& match parent(link) {
        Some(dir) => dir.len() == 0 || (fs.dom().contains(dir) && fs[dir] is Dir),
        None => false,
    }
}

/// The filesystem after `op`, or nothing where the operation fails.
pub open spec fn apply(fs: Files, op: OpView) -> Option<Files> {
    match op {
        OpView::CopyFile { from, to } => if fs.dom().contains(from) && fs[from] is File && from
            != to && (fs.dom().contains(to) ==> fs[to] is File) {
            Some(fs.insert(to, fs[from]))
        } else {
            None
        },
        OpView::RemoveFile(path) => if fs.dom().contains(path) && !(fs[path] is Dir) {
            Some(fs.remove(path))
        } else {
            None
        },
        OpView::Rename { from, to } => if fs.dom().contains(from) && from != to {
            Some(fs.remove(from).insert(to, fs[from]))
        } else {
            None
        },
        OpView::CreateDirAll(dir) => if can_create_dirs(fs, dir) {
            Some(with_dirs(fs, dir))
        } else {
            None
        },
        OpView::Symlink { original, link } => if can_link_at(fs, link) {
            Some(fs.insert(link, Node::Symlink(original)))
        } else {
            None
        },
        OpView::HardLink { original, link } => if can_link_at(fs, link) && fs.dom().contains(
            original,
        ) && fs[original] is File {
            Some(fs.insert(link, Node::HardLink(original)))
        } else {
            None
        },
    }
}

/// The filesystem after all of `ops` in order, or nothing where one of them
/// fails.
pub open spec fn apply_all(fs: Files, ops: Seq<OpView>) -> Option<Files>
    decreases ops.len(),
{
    if ops.len() == 0 {
        Some(fs)
    } else {
        match apply(fs, ops[0]) {
            Some(next) => apply_all(next, ops.drop_first()),
            None => None,
        }
    }
}

/// What the planned link is once it is in place.
pub open spec fn link_node(link: LinkView) -> Node {
    match link.ty {
        LinkType::SymlinkAbsolute => Node::Symlink(link.src),
        LinkType::SymlinkRelative => Node::Symlink(relative_source(link)->0),
        LinkType::HardLink => Node::HardLink(link.src),
    }
}

/// The link can be made in `fs` once its destination is free: the source is
/// a regular file apart from the destination, the destination has a file
/// name, there is a relative path where one is asked for, and the directory
/// of the destination is there or can be created.
pub open spec fn ready_for(fs: Files, link: LinkView, create_dirs: bool) -> bool {
    &&& fs.dom().contains(link.src)
    &&& fs[link.src] is File
    &&& link.src != link.dest
    &&& file_name(link.dest) is Some
    &&& link.ty == LinkType::SymlinkRelative ==> relative_source(link) is Some
    &&& if create_dirs {
        can_create_dirs(fs, parent(link.dest)->0)
    } else {
        parent(link.dest)->0.len() == 0 || (fs.dom().contains(parent(link.dest)->0)
            && fs[parent(link.dest)->0] is Dir)
    }
}

/// Performing one operation is applying it.
proof fn lemma_apply_one(fs: Files, op: OpView)
    ensures
        apply_all(fs, seq![op]) == apply(fs, op),
{
    reveal_with_fuel(apply_all, 2);
    assert(seq![op].drop_first() =~= Seq::<OpView>::empty());
}

/// Performing two operations is applying one after the other.
proof fn lemma_apply_two(fs: Files, a: OpView, b: OpView)
    ensures
        apply_all(fs, seq![a, b]) == match apply(fs, a) {
            Some(mid) => apply(mid, b),
            None => None,
        },
{
    assert(seq![a, b].drop_first() =~= seq![b]);
    match apply(fs, a) {
        Some(mid) => lemma_apply_one(mid, b),
        None => {},
    }
}

/// The destination is not its own directory, nor above it.
proof fn lemma_dest_not_above_its_dir(dest: PathView)
    requires
        file_name(dest) is Some,
    ensures
        parent(dest) == Some(dest.drop_last()),
        !starts_with(dest.drop_last(), dest),
        dest.drop_last() != dest,
{
    let c = dest.last();
    assert(c != crate::path::root_name());
}

/// Creating the link, once the destination is free and what was in the way
/// has left the other paths that matter as they were, puts the link at the
/// destination and changes nothing that existed.
proof fn lemma_creation_links(fs: Files, link: LinkView, create_dirs: bool)
    requires
        ready_for(fs, link, create_dirs),
        !fs.dom().contains(link.dest),
    ensures
        creation(link, create_dirs).failure is None,
        apply_all(fs, creation(link, create_dirs).ops) is Some,
        ({
            let after = apply_all(fs, creation(link, create_dirs).ops)->0;
            &&& after.dom().contains(link.dest)
            &&& after[link.dest] == link_node(link)
            &&& forall|q: PathView|
                fs.dom().contains(q) ==> after.dom().contains(q) && after[q] == fs[q]
        }),
{
    let dest = link.dest;
    lemma_dest_not_above_its_dir(dest);
    let dir = dest.drop_last();
    let made = creation(link, create_dirs);
    let last = match link.ty {
        LinkType::SymlinkAbsolute => OpView::Symlink { original: link.src, link: dest },
        LinkType::SymlinkRelative => OpView::Symlink {
            original: relative_source(link)->0,
            link: dest,
        },
        LinkType::HardLink => OpView::HardLink { original: link.src, link: dest },
    };
    if create_dirs {
        let fs1 = with_dirs(fs, dir);
        assert(made.ops =~= seq![OpView::CreateDirAll(dir), last]);
        lemma_apply_two(fs, OpView::CreateDirAll(dir), last);
        assert(!fs1.dom().contains(dest));
        assert(dir.len() == 0 || (fs1.dom().contains(dir) && fs1[dir] is Dir)) by {
            if dir.len() > 0 {
                assert(dir.subrange(0, dir.len() as int) =~= dir);
                assert(starts_with(dir, dir));
            }
        }
        assert(can_link_at(fs1, dest));
        assert(fs1.dom().contains(link.src) && fs1[link.src] is File);
        let fs2 = apply(fs1, last)->0;
        assert(apply_all(fs, made.ops) == Some(fs2));
    } else {
        assert(made.ops =~= seq![last]);
        lemma_apply_one(fs, last);
        assert(can_link_at(fs, dest));
        let fs2 = apply(fs, last)->0;
        assert(apply_all(fs, made.ops) == Some(fs2));
    }
}

/// Performing `first` and then `rest` is performing them all.
proof fn lemma_apply_all_concat(fs: Files, first: Seq<OpView>, rest: Seq<OpView>)
    ensures
        apply_all(fs, first + rest) == match apply_all(fs, first) {
            Some(mid) => apply_all(mid, rest),
            None => None,
        },
    decreases first.len(),
{
    if first.len() == 0 {
        assert(first + rest =~= rest);
    } else {
        assert((first + rest)[0] == first[0]);
        assert((first + rest).drop_first() =~= first.drop_first() + rest);
        match apply(fs, first[0]) {
            Some(next) => lemma_apply_all_concat(next, first.drop_first(), rest),
            None => {},
        }
    }
}

/// Under `ThrowError`, a destination that exists stops the run for this link
/// before any operation: nothing is created and what exists stays as it is.
pub proof fn lemma_throw_error_changes_nothing(
    fs: Files,
    link: LinkView,
    create_dirs: bool,
)
    requires
        fs.dom().contains(link.dest),
    ensures
        link_actions(ExistingFileStrategy::ThrowError, create_dirs, link, probe(fs, link.dest)).ops
            == Seq::<OpView>::empty(),
        link_actions(
            ExistingFileStrategy::ThrowError,
            create_dirs,
            link,
            probe(fs, link.dest),
        ).failure == Some(crate::error::UnboxErrorView::TargetAlreadyExists(link)),
        apply_all(
            fs,
            link_actions(
                ExistingFileStrategy::ThrowError,
                create_dirs,
                link,
                probe(fs, link.dest),
            ).ops,
        ) == Some(fs),
{
}

/// Under `Ignore`, a destination that exists is left alone: there is no
/// operation for this link and no failure, so the run goes on to the next
/// link.
pub proof fn lemma_ignore_changes_nothing(fs: Files, link: LinkView, create_dirs: bool)
    requires
        fs.dom().contains(link.dest),
    ensures
        link_actions(ExistingFileStrategy::Ignore, create_dirs, link, probe(fs, link.dest)) == (
        ActionsView { ops: Seq::empty(), failure: None }),
        apply_all(
            fs,
            link_actions(ExistingFileStrategy::Ignore, create_dirs, link, probe(fs, link.dest)).ops,
        ) == Some(fs),
{
}

/// Under `Overwrite`, a file in the way is removed and the destination
/// becomes the link to the source.
pub proof fn lemma_overwrite_links_dest(fs: Files, link: LinkView, create_dirs: bool)
    requires
        fs.dom().contains(link.dest),
        !(fs[link.dest] is Dir),
        ready_for(fs, link, create_dirs),
    ensures
        ({
            let acts = link_actions(
                ExistingFileStrategy::Overwrite,
                create_dirs,
                link,
                probe(fs, link.dest),
            );
            &&& acts.failure is None
            &&& apply_all(fs, acts.ops) is Some
            &&& apply_all(fs, acts.ops)->0.dom().contains(link.dest)
            &&& apply_all(fs, acts.ops)->0[link.dest] == link_node(link)
            &&& apply_all(fs, acts.ops)->0[link.src] == fs[link.src]
        }),
{
    let dest = link.dest;
    lemma_dest_not_above_its_dir(dest);
    let clear = seq![OpView::RemoveFile(dest)];
    let fs1 = fs.remove(dest);
    lemma_apply_one(fs, OpView::RemoveFile(dest));
    assert(apply_all(fs, clear) == Some(fs1));
    assert(ready_for(fs1, link, create_dirs)) by {
        if create_dirs {
            assert(can_create_dirs(fs1, dest.drop_last()));
        }
    }
    lemma_creation_links(fs1, link, create_dirs);
    lemma_apply_all_concat(fs, clear, creation(link, create_dirs).ops);
}

/// Under `Move`, what was in the way is found beside the destination, under
/// its name with `.bak` added, as it was; and the destination becomes the
/// link to the source.
pub proof fn lemma_move_keeps_a_backup(fs: Files, link: LinkView, create_dirs: bool)
    requires
        fs.dom().contains(link.dest),
        backup_path(link.dest) != link.src,
        ready_for(fs, link, create_dirs),
    ensures
        ({
            let acts = link_actions(
                ExistingFileStrategy::Move,
                create_dirs,
                link,
                probe(fs, link.dest),
            );
            &&& acts.failure is None
            &&& apply_all(fs, acts.ops) is Some
            &&& apply_all(fs, acts.ops)->0.dom().contains(backup_path(link.dest))
            &&& apply_all(fs, acts.ops)->0[backup_path(link.dest)] == fs[link.dest]
            &&& apply_all(fs, acts.ops)->0.dom().contains(link.dest)
            &&& apply_all(fs, acts.ops)->0[link.dest] == link_node(link)
            &&& apply_all(fs, acts.ops)->0[link.src] == fs[link.src]
        }),
{
    let dest = link.dest;
    lemma_dest_not_above_its_dir(dest);
    let dir = dest.drop_last();
    let backup = backup_path(dest);
    assert(backup == dir.push(file_name(dest)->0 + crate::execute::backup_suffix()));
    assert(backup != dest) by {
        reveal_strlit(".bak");
        assert(backup.last().len() == dest.last().len() + 4);
    }
    assert(!starts_with(dir, backup));
    let clear = seq![OpView::Rename { from: dest, to: backup }];
    let fs1 = fs.remove(dest).insert(backup, fs[dest]);
    lemma_apply_one(fs, OpView::Rename { from: dest, to: backup });
    assert(apply_all(fs, clear) == Some(fs1));
    assert(ready_for(fs1, link, create_dirs)) by {
        if create_dirs {
            assert(can_create_dirs(fs1, dir));
        } else {
            assert(dir != backup);
        }
    }
    lemma_creation_links(fs1, link, create_dirs);
    lemma_apply_all_concat(fs, clear, creation(link, create_dirs).ops);
    let acts = link_actions(ExistingFileStrategy::Move, create_dirs, link, probe(fs, dest));
    assert(acts.ops == clear + creation(link, create_dirs).ops);
    let after = apply_all(fs1, creation(link, create_dirs).ops)->0;
    assert(apply_all(fs, acts.ops) == Some(after));
    assert(fs1.dom().contains(backup) && fs1[backup] == fs[dest]);
    assert(fs1.dom().contains(link.src) && fs1[link.src] == fs[link.src]);
    assert(after[backup] == fs[dest]);
    assert(after[link.src] == fs[link.src]);
}

/// Under `Adopt`, the contents of a regular file in the way become the
/// contents of the source, and the destination becomes the link to the
/// source.
pub proof fn lemma_adopt_takes_the_contents(fs: Files, link: LinkView, create_dirs: bool)
    requires
        fs.dom().contains(link.dest),
        fs[link.dest] is File,
        ready_for(fs, link, create_dirs),
    ensures
        ({
            let acts = link_actions(
                ExistingFileStrategy::Adopt,
                create_dirs,
                link,
                probe(fs, link.dest),
            );
            &&& acts.failure is None
            &&& apply_all(fs, acts.ops) is Some
            &&& apply_all(fs, acts.ops)->0[link.src] == fs[link.dest]
            &&& apply_all(fs, acts.ops)->0.dom().contains(link.dest)
            &&& apply_all(fs, acts.ops)->0[link.dest] == link_node(link)
        }),
{
    let dest = link.dest;
    let src = link.src;
    lemma_dest_not_above_its_dir(dest);
    let clear = seq![OpView::CopyFile { from: dest, to: src }, OpView::RemoveFile(dest)];
    let fs1 = fs.insert(src, fs[dest]);
    let fs2 = fs1.remove(dest);
    lemma_apply_two(fs, OpView::CopyFile { from: dest, to: src }, OpView::RemoveFile(dest));
    assert(apply(fs, clear[0]) == Some(fs1));
    assert(apply(fs1, clear[1]) == Some(fs2));
    assert(apply_all(fs, clear) == Some(fs2));
    assert(ready_for(fs2, link, create_dirs)) by {
        if create_dirs {
            assert(can_create_dirs(fs2, dest.drop_last()));
        }
    }
    lemma_creation_links(fs2, link, create_dirs);
    lemma_apply_all_concat(fs, clear, creation(link, create_dirs).ops);
}

/// Under `Adopt`, a symbolic link in the way stops the run for this link
/// before any operation: source and destination stay as they are.
pub proof fn lemma_adopt_refuses_a_symlink(fs: Files, link: LinkView, create_dirs: bool)
    requires
        fs.dom().contains(link.dest),
        fs[link.dest] is Symlink,
    ensures
        link_actions(ExistingFileStrategy::Adopt, create_dirs, link, probe(fs, link.dest)) == (
        ActionsView {
            ops: Seq::empty(),
            failure: Some(crate::error::UnboxErrorView::AdoptSymlink(link)),
        }),
        apply_all(
            fs,
            link_actions(ExistingFileStrategy::Adopt, create_dirs, link, probe(fs, link.dest)).ops,
        ) == Some(fs),
{
}

/// Where nothing is in the way, the link is created whatever the strategy.
pub proof fn lemma_free_destination_is_linked(
    fs: Files,
    efs: ExistingFileStrategy,
    link: LinkView,
    create_dirs: bool,
)
    requires
        !fs.dom().contains(link.dest),
        ready_for(fs, link, create_dirs),
    ensures
        ({
            let acts = link_actions(efs, create_dirs, link, probe(fs, link.dest));
            &&& acts.failure is None
            &&& apply_all(fs, acts.ops) is Some
            &&& apply_all(fs, acts.ops)->0.dom().contains(link.dest)
            &&& apply_all(fs, acts.ops)->0[link.dest] == link_node(link)
        }),
{
    lemma_creation_links(fs, link, create_dirs);
}

} // verus!
