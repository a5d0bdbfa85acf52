//! The filesystem operations that building a sandbox consists of.

use vstd::prelude::*;

verus! {

/// The most file-content operations that may run at the same time. Writing,
/// copying and creating files take a permit of a pool of this size; creating
/// directories and links takes none.
pub const SEMAPHORE_LIMIT: usize = 100;

/// One operation on the filesystem. The library decides which operations a
/// configuration asks for and in which order; its caller performs them.
#[derive(Debug, PartialEq, Eq)]
pub enum Action {
    /// Create the directory `path`, with any ancestor that is missing.
    CreateDir { path: String },
    /// Create the file `path` and write `data` into it, byte for byte.
    WriteFile { path: String, data: Vec<u8> },
    /// Create the file `path` and copy every byte of the file `source` into it.
    CopyFile { source: String, path: String },
    /// Create the file `path` and write nothing into it.
    CreateFile { path: String },
    /// Create `path` as a hard link to the existing file `target`.
    HardLink { target: String, path: String },
    /// Create the directory `path` and copy the content of the directory
    /// `source` into it, level by level.
    CloneDir { source: String, path: String },
}

/// An [`Action`] as a mathematical value.
pub enum ActionView {
    CreateDir { path: Seq<char> },
    WriteFile { path: Seq<char>, data: Seq<u8> },
    CopyFile { source: Seq<char>, path: Seq<char> },
    CreateFile { path: Seq<char> },
    HardLink { target: Seq<char>, path: Seq<char> },
    CloneDir { source: Seq<char>, path: Seq<char> },
}

impl View for Action {
    type V = ActionView;

    open spec fn view(&self) -> ActionView {
        match *self {
            Action::CreateDir { path } => ActionView::CreateDir { path: path@ },
            Action::WriteFile { path, data } => ActionView::WriteFile { path: path@, data: data@ },
            Action::CopyFile { source, path } => ActionView::CopyFile {
                source: source@,
                path: path@,
            },
            Action::CreateFile { path } => ActionView::CreateFile { path: path@ },
            Action::HardLink { target, path } => ActionView::HardLink {
                target: target@,
                path: path@,
            },
            Action::CloneDir { source, path } => ActionView::CloneDir {
                source: source@,
                path: path@,
            },
        }
    }
}

impl ActionView {
    /// The path that the operation creates.
    pub open spec fn path(self) -> Seq<char> {
        match self {
            ActionView::CreateDir { path } => path,
            ActionView::WriteFile { path, .. } => path,
            ActionView::CopyFile { path, .. } => path,
            ActionView::CreateFile { path } => path,
            ActionView::HardLink { path, .. } => path,
            ActionView::CloneDir { path, .. } => path,
        }
    }

    /// Whether the operation works on the content of one file and therefore
    /// takes a permit of the pool.
    pub open spec fn needs_permit(self) -> bool {
        self is WriteFile || self is CopyFile || self is CreateFile
    }
}

/// A list of actions as mathematical values, in the same order.
pub open spec fn views(actions: Seq<Action>) -> Seq<ActionView> {
    actions.map_values(|action: Action| action@)
}

/// The views of a list with one more action are the views of the list with
/// the view of that action behind them.
pub proof fn lemma_views_push(actions: Seq<Action>, action: Action)
    ensures
        views(actions.push(action)) == views(actions).push(action@),
{
    assert(views(actions.push(action)) =~= views(actions).push(action@));
}

impl Action {
    /// The path that the operation creates.
    pub fn path(&self) -> (path: &str)
        ensures
            path@ == self@.path(),
    {
        match self {
            Action::CreateDir { path } => path.as_str(),
            Action::WriteFile { path, .. } => path.as_str(),
            Action::CopyFile { path, .. } => path.as_str(),
            Action::CreateFile { path } => path.as_str(),
            Action::HardLink { path, .. } => path.as_str(),
            Action::CloneDir { path, .. } => path.as_str(),
        }
    }

    /// Whether the operation works on the content of one file and therefore
    /// takes a permit of the pool.
    pub fn needs_permit(&self) -> (answer: bool)
        ensures
            answer == self@.needs_permit(),
    {
        match self {
            Action::WriteFile { .. } | Action::CopyFile { .. } | Action::CreateFile { .. } => true,
            _ => false,
        }
    }
}

} // verus!
