//! Cloning a directory: which operations copy the content of an existing
//! directory into the sandbox.
//!
//! A directory is cloned level by level. The caller lists what lies directly
//! inside the source directory; this module answers with the operations for
//! that level. A regular file is copied under its own name. A directory is
//! cloned under its own name, by the same rule one level down. Anything else
//! (a symbolic link, a device, a socket) is passed over.

use vstd::prelude::*;
use crate::rfs::action::{lemma_views_push, views, Action, ActionView};
use crate::rfs::naming::{join, join_path};

verus! {

/// What kind of object lies in a source directory.
#[derive(Debug, Clone, Copy, PartialEq, Eq, Structural)]
pub enum SourceKind {
    /// A regular file.
    File,
    /// A directory.
    Directory,
    /// Anything that is neither a regular file nor a directory.
    Other,
}

impl SourceKind {
    /// The kind of an object from what the filesystem says of it. A regular
    /// file is a file whatever else is said; anything that is neither a
    /// regular file nor a directory is of the other kind.
    pub fn classify(is_file: bool, is_dir: bool) -> (kind: SourceKind)
        ensures
            is_file ==> kind == SourceKind::File,
            !is_file && is_dir ==> kind == SourceKind::Directory,
            !is_file && !is_dir ==> kind == SourceKind::Other,
    {
        if is_file {
            SourceKind::File
        } else if is_dir {
            SourceKind::Directory
        } else {
            SourceKind::Other
        }
    }
}

/// One object that lies directly inside a source directory.
#[derive(Debug, PartialEq, Eq)]
pub struct SourceEntry {
    pub name: String,
    pub kind: SourceKind,
}

/// The operation that clones one object of the directory `source` into the
/// directory `dest`, if its kind is cloned at all.
pub open spec fn source_entry_action(
    entry: SourceEntry,
    source: Seq<char>,
    dest: Seq<char>,
) -> Option<ActionView> {
    match entry.kind {
        SourceKind::File => Some(
            ActionView::CopyFile {
                source: join(source, entry.name@),
                path: join(dest, entry.name@),
            },
        ),
        SourceKind::Directory => Some(
            ActionView::CloneDir {
                source: join(source, entry.name@),
                path: join(dest, entry.name@),
            },
        ),
        SourceKind::Other => None,
    }
}

/// The operations that clone the listed objects of the directory `source`
/// into the directory `dest`, in the order of the listing.
pub open spec fn listing_plan(
    entries: Seq<SourceEntry>,
    source: Seq<char>,
    dest: Seq<char>,
) -> Seq<ActionView>
    decreases entries.len(),
{
    if entries.len() == 0 {
        Seq::empty()
    } else {
        let before = listing_plan(entries.drop_last(), source, dest);
        match source_entry_action(entries.last(), source, dest) {
            Some(action) => before.push(action),
            None => before,
        }
    }
}

/// The operations of one level of a clone: the creation of the directory
/// `dest`, then the operations for the listed objects of `source`.
pub open spec fn clone_level_plan(
    entries: Seq<SourceEntry>,
    source: Seq<char>,
    dest: Seq<char>,
) -> Seq<ActionView> {
    seq![ActionView::CreateDir { path: dest }] + listing_plan(entries, source, dest)
}

/// The operations of one level of a clone of the directory `source` into
/// the directory `dest`, given what lies directly inside `source`.
///
/// The directory `dest` is created first. Every regular file is copied and
/// every directory is cloned, each under its own name and in the order of
/// the listing; objects of any other kind are passed over.
pub fn plan_clone_level(entries: &Vec<SourceEntry>, source: &str, dest: &str) -> (plan: Vec<Action>)
    ensures
        views(plan@) == clone_level_plan(entries@, source@, dest@),
{
    let mut plan: Vec<Action> = Vec::new();
    let created = Action::CreateDir { path: String::from_str(dest) };
    proof {
        lemma_views_push(plan@, created);
    }
    plan.push(created);
    let ghost head = seq![ActionView::CreateDir { path: dest@ }];
    assert(views(plan@) =~= head + listing_plan(entries@.take(0), source@, dest@));
    let mut index: usize = 0;
    while index < entries.len()
        invariant
            index <= entries.len(),
            head == seq![ActionView::CreateDir { path: dest@ }],
            views(plan@) == head + listing_plan(entries@.take(index as int), source@, dest@),
        decreases entries.len() - index,
    {
        let entry = &entries[index];
        proof {
            let upto = entries@.take(index + 1);
            assert(upto.drop_last() =~= entries@.take(index as int));
            assert(upto.last() == *entry);
        }
        match entry.kind {
            SourceKind::File => {
                let action = Action::CopyFile {
                    source: join_path(source, entry.name.as_str()),
                    path: join_path(dest, entry.name.as_str()),
                };
                proof {
                    lemma_views_push(plan@, action);
                }
                plan.push(action);
            },
            SourceKind::Directory => {
                let action = Action::CloneDir {
                    source: join_path(source, entry.name.as_str()),
                    path: join_path(dest, entry.name.as_str()),
                };
                proof {
                    lemma_views_push(plan@, action);
                }
                plan.push(action);
            },
            SourceKind::Other => {},
        }
        assert(views(plan@) =~= head + listing_plan(entries@.take(index + 1), source@, dest@));
        index = index + 1;
    }
    assert(entries@.take(entries.len() as int) =~= entries@);
    plan
}

/// Every operation for a listing comes from one of the listed objects:
/// nothing is copied or cloned that does not lie in the source directory,
/// and an object of another kind gives no operation.
pub proof fn lemma_listing_plan_comes_from_entries(
    entries: Seq<SourceEntry>,
    source: Seq<char>,
    dest: Seq<char>,
    action: ActionView,
)
    requires
        listing_plan(entries, source, dest).contains(action),
    ensures
        exists|at: int|
            0 <= at < entries.len() && #[trigger] source_entry_action(entries[at], source, dest)
                == Some(action),
    decreases entries.len(),
{
    let plan = listing_plan(entries, source, dest);
    let k = choose|k: int| 0 <= k < plan.len() && plan[k] == action;
    if entries.len() > 0 {
        let before = listing_plan(entries.drop_last(), source, dest);
        let last_at = entries.len() - 1;
        if k < before.len() {
            assert(before[k] == action);
            lemma_listing_plan_comes_from_entries(entries.drop_last(), source, dest, action);
            let at = choose|at: int|
                0 <= at < entries.drop_last().len() && #[trigger] source_entry_action(
                    entries.drop_last()[at],
                    source,
                    dest,
                ) == Some(action);
            assert(entries[at] == entries.drop_last()[at]);
            assert(source_entry_action(entries[at], source, dest) == Some(action));
        } else {
            assert(source_entry_action(entries[last_at], source, dest) == Some(action));
        }
    }
}

/// Every listed object that is a regular file or a directory gives its
/// operation: the relative structure of the source is kept one to one.
pub proof fn lemma_listing_plan_holds_entry(
    entries: Seq<SourceEntry>,
    source: Seq<char>,
    dest: Seq<char>,
    at: int,
)
    requires
        0 <= at < entries.len(),
        entries[at].kind != SourceKind::Other,
    ensures
        source_entry_action(entries[at], source, dest) is Some,
        listing_plan(entries, source, dest).contains(
            source_entry_action(entries[at], source, dest)->Some_0,
        ),
    decreases entries.len(),
{
    let action = source_entry_action(entries[at], source, dest)->Some_0;
    let before = listing_plan(entries.drop_last(), source, dest);
    let plan = listing_plan(entries, source, dest);
    if at == entries.len() - 1 {
        assert(plan == before.push(action));
        assert(plan[before.len() as int] == action);
    } else {
        assert(entries.drop_last()[at] == entries[at]);
        lemma_listing_plan_holds_entry(entries.drop_last(), source, dest, at);
        let k = choose|k: int| 0 <= k < before.len() && before[k] == action;
        assert(plan[k] == action);
    }
}

/// Cloning keeps names and places. A regular file of the source directory
/// is copied from its place in the source to the same name in the
/// destination, a directory is cloned from its place to the same name, and
/// the destination directory itself is created before either.
pub proof fn lemma_clone_keeps_structure(
    entries: Seq<SourceEntry>,
    source: Seq<char>,
    dest: Seq<char>,
    at: int,
)
    requires
        0 <= at < entries.len(),
    ensures
        clone_level_plan(entries, source, dest)[0] == (ActionView::CreateDir { path: dest }),
        entries[at].kind == SourceKind::File ==> clone_level_plan(entries, source, dest).contains(
            ActionView::CopyFile {
                source: join(source, entries[at].name@),
                path: join(dest, entries[at].name@),
            },
        ),
        entries[at].kind == SourceKind::Directory ==> clone_level_plan(
            entries,
            source,
            dest,
        ).contains(
            ActionView::CloneDir {
                source: join(source, entries[at].name@),
                path: join(dest, entries[at].name@),
            },
        ),
{
    let head = seq![ActionView::CreateDir { path: dest }];
    let listing = listing_plan(entries, source, dest);
    if entries[at].kind != SourceKind::Other {
        lemma_listing_plan_holds_entry(entries, source, dest, at);
        let action = source_entry_action(entries[at], source, dest)->Some_0;
        let k = choose|k: int| 0 <= k < listing.len() && listing[k] == action;
        assert((head + listing)[1 + k] == action);
    }
}

} // verus!
