//! The plan of a directory tree: which filesystem operations a configured
//! directory asks for, and in which order.
//!
//! A directory is created before anything inside it. Behind the creation of
//! a directory stand the operations of its entries, entry by entry in
//! configuration order, those of a nested directory as one block. Apart from
//! that the entries of one directory do not depend on each other: whoever
//! performs the plan may run them side by side.

use vstd::prelude::*;
use crate::rfs::action::{lemma_views_push, views, Action, ActionView};
use crate::rfs::config::clone_directory_conf::CloneDirectoryConf;
use crate::rfs::config::config_entry::ConfigEntry;
use crate::rfs::config::directory_conf::DirectoryConf;
use crate::rfs::config::file_conf::FileConf;
use crate::rfs::config::link_conf::LinkConf;
use crate::rfs::file_content::FileContent;
use crate::rfs::fs_tester_error::{ErrorCode, FsTesterError};
use crate::rfs::naming::{
    begins_with,
    dir_path,
    dir_path_with_code,
    join,
    join_path,
    lemma_begins_with_is_transitive,
    lemma_join_begins_with_parent,
    root_name,
};
use crate::rfs::permissions::Permissions;

verus! {

/// The operation that makes the file `conf` inside the directory `dir`.
pub open spec fn file_action(conf: FileConf, dir: Seq<char>) -> ActionView {
    let path = join(dir, conf.name@);
    match conf.content {
        FileContent::InlineBytes(data) => ActionView::WriteFile { path, data: data@ },
        FileContent::InlineText(text) => ActionView::WriteFile {
            path,
            data: vstd::utf8::encode_utf8(text@),
        },
        FileContent::OriginalFile(source) => ActionView::CopyFile { source: source@, path },
        FileContent::Empty => ActionView::CreateFile { path },
    }
}

/// The operation that makes the link `conf` inside the directory `dir`.
pub open spec fn link_action(conf: LinkConf, dir: Seq<char>) -> ActionView {
    ActionView::HardLink { target: conf.target@, path: join(dir, conf.name@) }
}

/// The operation that makes the cloned directory `conf` below `parent`.
pub open spec fn clone_action(
    conf: CloneDirectoryConf,
    parent: Seq<char>,
    level: u32,
    code: u64,
) -> ActionView {
    ActionView::CloneDir { source: conf.source@, path: dir_path(parent, conf.name@, level, code) }
}

/// The operations of one entry that lies inside the directory `dir`.
pub open spec fn entry_plan(entry: ConfigEntry, dir: Seq<char>) -> Seq<ActionView>
    decreases entry, 0nat,
{
    match entry {
        ConfigEntry::Directory(conf) => {
            let path = join(dir, conf.name@);
            seq![ActionView::CreateDir { path }] + content_plan(
                conf,
                path,
                conf.content.len() as nat,
            )
        },
        ConfigEntry::CloneDirectory(conf) => seq![clone_action(conf, dir, 1, 0)],
        ConfigEntry::File(conf) => seq![file_action(conf, dir)],
        ConfigEntry::Link(conf) => seq![link_action(conf, dir)],
    }
}

/// The operations of the first `count` entries of the directory `conf`,
/// which lies at `dir`.
pub open spec fn content_plan(conf: DirectoryConf, dir: Seq<char>, count: nat) -> Seq<ActionView>
    decreases conf, count,
{
    if count == 0 || count > conf.content.len() {
        Seq::empty()
    } else {
        content_plan(conf, dir, (count - 1) as nat) + entry_plan(conf.content[count - 1], dir)
    }
}

/// The operations of the directory `conf` below `parent`: its own creation,
/// then the operations of all its entries.
pub open spec fn directory_plan(
    conf: DirectoryConf,
    parent: Seq<char>,
    level: u32,
    code: u64,
) -> Seq<ActionView> {
    let path = dir_path(parent, conf.name@, level, code);
    seq![ActionView::CreateDir { path }] + content_plan(conf, path, conf.content.len() as nat)
}

/// Whether an entry is a link or holds one at any depth.
pub open spec fn entry_has_link(entry: ConfigEntry) -> bool
    decreases entry, 0nat,
{
    match entry {
        ConfigEntry::Directory(conf) => content_has_link(conf, conf.content.len() as nat),
        ConfigEntry::Link(_) => true,
        _ => false,
    }
}

/// Whether one of the first `count` entries of the directory `conf` is a
/// link or holds one at any depth.
pub open spec fn content_has_link(conf: DirectoryConf, count: nat) -> bool
    decreases conf, count,
{
    if count == 0 || count > conf.content.len() {
        false
    } else {
        content_has_link(conf, (count - 1) as nat) || entry_has_link(conf.content[count - 1])
    }
}

/// The operation that makes the file `conf` inside the directory `dir`.
///
/// Inline bytes are written as they are and inline text as its UTF-8
/// encoding, with nothing added. A file with empty content is created and
/// nothing is written into it.
pub fn plan_file(conf: &FileConf, dir: &str) -> (action: Action)
    ensures
        action@ == file_action(*conf, dir@),
{
    let path = join_path(dir, conf.name.as_str());
    match &conf.content {
        FileContent::InlineBytes(data) => Action::WriteFile { path, data: data.clone() },
        FileContent::InlineText(text) => Action::WriteFile {
            path,
            data: text.as_str().as_bytes_vec(),
        },
        FileContent::OriginalFile(source) => Action::CopyFile { source: source.clone(), path },
        FileContent::Empty => Action::CreateFile { path },
    }
}

/// The operation that makes the link `conf` inside the directory `dir`, or
/// the refusal of it: a link is planned only when links are permitted.
pub fn plan_link(conf: &LinkConf, dir: &str, permissions: &Permissions) -> (planned: Result<
    Action,
    FsTesterError,
>)
    ensures
        permissions.links_allowed ==> planned is Ok && planned->Ok_0@ == link_action(*conf, dir@),
        !permissions.links_allowed ==> planned is Err && planned->Err_0.is_bare(
            ErrorCode::LinksNotAllowed,
        ),
{
    if permissions.links_allowed {
        let path = join_path(dir, conf.name.as_str());
        Ok(Action::HardLink { target: conf.target.clone(), path })
    } else {
        Err(FsTesterError::not_allowed_settings())
    }
}

/// The operation that makes the cloned directory `conf` below `parent`. At
/// level 0 the directory is the sandbox root and its name carries the suffix
/// made from `code`.
pub fn plan_clone(conf: &CloneDirectoryConf, parent: &str, level: u32, code: u64) -> (action:
    Action)
    ensures
        action@ == clone_action(*conf, parent@, level, code),
{
    let path = dir_path_with_code(parent, conf.name.as_str(), level, code);
    Action::CloneDir { source: conf.source.clone(), path }
}

/// Whether the directory `conf` holds a link at any depth.
pub fn directory_has_link(conf: &DirectoryConf) -> (answer: bool)
    ensures
        answer == content_has_link(*conf, conf.content.len() as nat),
    decreases conf,
{
    let mut found = false;
    let mut index: usize = 0;
    while index < conf.content.len()
        invariant
            index <= conf.content.len(),
            found == content_has_link(*conf, index as nat),
        decreases conf.content.len() - index,
    {
        let inner = match &conf.content[index] {
            ConfigEntry::Directory(nested) => {
                proof {
                    vstd::std_specs::vec::axiom_vec_index_decreases(conf.content, index as int);
                    assert(conf.content[index as int]->Directory_0 == *nested);
                }
                directory_has_link(nested)
            },
            ConfigEntry::Link(_) => true,
            _ => false,
        };
        assert(inner == entry_has_link(conf.content[index as int]));
        found = found || inner;
        index = index + 1;
    }
    found
}

/// Whether an entry is a link or holds one at any depth.
pub fn has_link(entry: &ConfigEntry) -> (answer: bool)
    ensures
        answer == entry_has_link(*entry),
{
    match entry {
        ConfigEntry::Directory(conf) => directory_has_link(conf),
        ConfigEntry::Link(_) => true,
        _ => false,
    }
}

/// A directory that holds no link among its first `count` entries holds
/// none in any one of them.
pub proof fn lemma_no_link_in_content(conf: DirectoryConf, count: nat, at: int)
    requires
        0 <= at < count <= conf.content.len(),
        !content_has_link(conf, count),
    ensures
        !entry_has_link(conf.content[at]),
    decreases count,
{
    if at < count - 1 {
        lemma_no_link_in_content(conf, (count - 1) as nat, at);
    }
}

/// Appends the operations of one entry that lies inside the directory `dir`.
fn plan_entry(entry: &ConfigEntry, dir: &str, permissions: &Permissions, plan: &mut Vec<Action>)
    requires
        permissions.links_allowed || !entry_has_link(*entry),
    ensures
        views(final(plan)@) == views(old(plan)@) + entry_plan(*entry, dir@),
    decreases entry, 1nat,
{
    match entry {
        ConfigEntry::Directory(conf) => {
            let path = join_path(dir, conf.name.as_str());
            plan_content(conf, path, permissions, plan, Ghost(*entry));
        },
        ConfigEntry::CloneDirectory(conf) => {
            let action = plan_clone(conf, dir, 1, 0);
            proof {
                lemma_views_push(plan@, action);
            }
            plan.push(action);
        },
        ConfigEntry::File(conf) => {
            let action = plan_file(conf, dir);
            proof {
                lemma_views_push(plan@, action);
            }
            plan.push(action);
        },
        ConfigEntry::Link(conf) => {
            match plan_link(conf, dir, permissions) {
                Ok(action) => {
                    proof {
                        lemma_views_push(plan@, action);
                    }
                    plan.push(action);
                },
                Err(_) => {
                    assert(false);
                },
            }
        },
    }
}

/// Appends the creation of the directory `path` and the operations of all
/// entries of `conf`, which is the directory made at `path`.
fn plan_content(
    conf: &DirectoryConf,
    path: String,
    permissions: &Permissions,
    plan: &mut Vec<Action>,
    owner: Ghost<ConfigEntry>,
)
    requires
        owner@ == ConfigEntry::Directory(*conf),
        permissions.links_allowed || !content_has_link(*conf, conf.content.len() as nat),
    ensures
        views(final(plan)@) == views(old(plan)@) + (seq![ActionView::CreateDir { path: path@ }]
            + content_plan(*conf, path@, conf.content.len() as nat)),
    decreases owner@, 0nat,
{
    let ghost before = views(plan@);
    let ghost made = ActionView::CreateDir { path: path@ };
    let created = Action::CreateDir { path: path.clone() };
    proof {
        lemma_views_push(plan@, created);
    }
    plan.push(created);
    let mut index: usize = 0;
    while index < conf.content.len()
        invariant
            index <= conf.content.len(),
            owner@ == ConfigEntry::Directory(*conf),
            permissions.links_allowed || !content_has_link(*conf, conf.content.len() as nat),
            views(plan@) == before.push(made) + content_plan(*conf, path@, index as nat),
        decreases conf.content.len() - index,
    {
        let ghost so_far = views(plan@);
        proof {
            vstd::std_specs::vec::axiom_vec_index_decreases(conf.content, index as int);
            assert(owner@->Directory_0 == *conf);
            if !permissions.links_allowed {
                lemma_no_link_in_content(*conf, conf.content.len() as nat, index as int);
            }
        }
        plan_entry(&conf.content[index], path.as_str(), permissions, plan);
        proof {
            let step = entry_plan(conf.content[index as int], path@);
            assert(content_plan(*conf, path@, (index + 1) as nat) == content_plan(
                *conf,
                path@,
                index as nat,
            ) + step);
            assert(so_far + step =~= before.push(made) + content_plan(
                *conf,
                path@,
                (index + 1) as nat,
            ));
        }
        index = index + 1;
    }
    assert(views(plan@) =~= before + (seq![made] + content_plan(
        *conf,
        path@,
        conf.content.len() as nat,
    )));
}

/// Whether a directory may be planned under the given permissions: links
/// are permitted, or the directory holds none at any depth.
pub open spec fn directory_permitted(conf: DirectoryConf, permissions: Permissions) -> bool {
    permissions.links_allowed || !content_has_link(conf, conf.content.len() as nat)
}

/// Plans the directory `conf` below `parent`.
///
/// A directory that holds a link at any depth while links are switched off
/// is refused, and nothing is planned. In every other case the operations
/// of the directory are appended to `plan` and the result is the path at
/// which the directory is made. At level 0 the directory is the sandbox
/// root and its name carries the suffix made from `code`; every directory
/// inside it keeps its configured name.
pub fn plan_directory(
    conf: &DirectoryConf,
    parent: &str,
    level: u32,
    code: u64,
    permissions: &Permissions,
    plan: &mut Vec<Action>,
) -> (planned: Result<String, FsTesterError>)
    ensures
        directory_permitted(*conf, *permissions) ==> planned is Ok && planned->Ok_0@ == dir_path(
            parent@,
            conf.name@,
            level,
            code,
        ) && views(final(plan)@) == views(old(plan)@) + directory_plan(
            *conf,
            parent@,
            level,
            code,
        ),
        !directory_permitted(*conf, *permissions) ==> planned is Err && planned->Err_0.is_bare(
            ErrorCode::LinksNotAllowed,
        ) && final(plan)@ == old(plan)@,
{
    if !permissions.links_allowed && directory_has_link(conf) {
        return Err(FsTesterError::not_allowed_settings());
    }
    let path = dir_path_with_code(parent, conf.name.as_str(), level, code);
    plan_content(conf, path.clone(), permissions, plan, Ghost(ConfigEntry::Directory(*conf)));
    Ok(path)
}

/// Whether the outcome at `index` is the first failure of the list: it is a
/// failure and every outcome before it is a success.
pub open spec fn is_first_failure(
    outcomes: Seq<Result<String, FsTesterError>>,
    index: int,
) -> bool {
    &&& 0 <= index < outcomes.len()
    &&& outcomes[index] is Err
    &&& forall|earlier: int| 0 <= earlier < index ==> outcomes[earlier] is Ok
}

/// Whether `error` is `raised` as a directory at `level` hands it on. The
/// sandbox root, at level 0, records its own path in the error, as one whose
/// removal has not been refused. Every other directory hands the error on
/// as it is.
pub open spec fn handed_on(
    error: FsTesterError,
    raised: FsTesterError,
    level: u32,
    path: Seq<char>,
) -> bool {
    if level == 0 {
        &&& error.same_cause(raised)
        &&& error.spec_sandbox_dir() == Some(path)
        &&& !error.spec_cleanup_skipped()
    } else {
        error == raised
    }
}

/// Hands an error of the work inside the directory `path` on to whoever
/// asked for that directory. At level 0 the path is recorded in the error,
/// so that the directory can be removed again.
pub fn hand_on(error: FsTesterError, level: u32, path: &str) -> (handed: FsTesterError)
    ensures
        handed_on(handed, error, level, path@),
{
    let mut handed = error;
    if level == 0 {
        handed.set_sandbox_dir(Some(String::from_str(path)));
    }
    handed
}

/// The result of building the directory `path` from the outcomes of the
/// operations inside it, given in the order of the plan.
///
/// Every operation is waited for, whatever the others did. If all of them
/// succeeded the result is the path of the directory. Otherwise it is the
/// first failure in the order of the plan, handed on as [`hand_on`] does;
/// later failures are dropped.
pub fn settle(outcomes: Vec<Result<String, FsTesterError>>, level: u32, path: String) -> (built:
    Result<String, FsTesterError>)
    ensures
        (forall|index: int| 0 <= index < outcomes.len() ==> outcomes[index] is Ok) ==> built is Ok
            && built->Ok_0@ == path@,
        forall|index: int| #[trigger]
            is_first_failure(outcomes@, index) ==> built is Err && handed_on(
                built->Err_0,
                outcomes[index]->Err_0,
                level,
                path@,
            ),
{
    let ghost all = outcomes@;
    let mut rest = outcomes;
    let mut first: Option<FsTesterError> = None;
    while rest.len() > 0
        invariant
            rest.len() <= all.len(),
            rest@ == all.take(rest.len() as int),
            first is None <==> forall|index: int|
                rest.len() <= index < all.len() ==> all[index] is Ok,
            first is Some ==> exists|at: int|
                rest.len() <= at < all.len() && all[at] is Err && first == Some(
                    #[trigger] all[at]->Err_0,
                ) && forall|earlier: int| rest.len() <= earlier < at ==> all[earlier] is Ok,
        decreases rest.len(),
    {
        let ghost position = rest.len() - 1;
        let outcome = rest.pop();
        assert(outcome == Some(all[position]));
        match outcome {
            Some(Err(error)) => {
                first = Some(error);
            },
            _ => {},
        }
    }
    match first {
        None => Ok(path),
        Some(error) => {
            let handed = hand_on(error, level, path.as_str());
            proof {
                let at = choose|at: int|
                    0 <= at < all.len() && all[at] is Err && first == Some(
                        #[trigger] all[at]->Err_0,
                    ) && forall|earlier: int| 0 <= earlier < at ==> all[earlier] is Ok;
                assert(is_first_failure(all, at));
                assert forall|index: int| #[trigger] is_first_failure(all, index) implies index
                    == at by {
                    lemma_first_failure_is_unique(all, index, at);
                }
            }
            Err(handed)
        },
    }
}

/// Work on the content of a file, and nothing else, takes a permit of the
/// pool. A file entry gives exactly one operation, at the directory's path,
/// a separator and the file's name, and that operation takes a permit.
/// Creating a directory and creating a link take none.
pub proof fn lemma_only_file_content_takes_permits(conf: FileConf, link: LinkConf, dir: Seq<char>)
    ensures
        entry_plan(ConfigEntry::File(conf), dir).len() == 1,
        entry_plan(ConfigEntry::File(conf), dir)[0].path() == join(dir, conf.name@),
        entry_plan(ConfigEntry::File(conf), dir)[0].needs_permit(),
        !link_action(link, dir).needs_permit(),
        !(ActionView::CreateDir { path: dir }).needs_permit(),
{
}

/// The first failure inside a block of outcomes is the first failure of the
/// whole list when everything in front of the block succeeded, whatever
/// comes behind the block. So the order of the plan, in which the operations
/// of a nested directory stand as one block, reports what directory by
/// directory reporting would: each directory its own first failure, and the
/// directory above it the first of those.
pub proof fn lemma_first_failure_in_block(
    front: Seq<Result<String, FsTesterError>>,
    block: Seq<Result<String, FsTesterError>>,
    back: Seq<Result<String, FsTesterError>>,
    at: int,
)
    requires
        forall|index: int| 0 <= index < front.len() ==> front[index] is Ok,
        is_first_failure(block, at),
    ensures
        is_first_failure(front + block + back, front.len() + at),
        (front + block + back)[front.len() + at] == block[at],
{
    let all = front + block + back;
    assert(all[front.len() + at] == block[at]);
    assert forall|earlier: int| 0 <= earlier < front.len() + at implies all[earlier] is Ok by {
        if earlier < front.len() {
            assert(all[earlier] == front[earlier]);
        } else {
            assert(all[earlier] == block[earlier - front.len()]);
        }
    }
}

/// A list of outcomes has at most one first failure.
pub proof fn lemma_first_failure_is_unique(
    outcomes: Seq<Result<String, FsTesterError>>,
    one: int,
    other: int,
)
    requires
        is_first_failure(outcomes, one),
        is_first_failure(outcomes, other),
    ensures
        one == other,
{
    if one < other {
        assert(outcomes[one] is Ok);
    }
    if other < one {
        assert(outcomes[other] is Ok);
    }
}

/// Every operation of an entry of a directory is one of the operations of
/// that directory's content.
pub proof fn lemma_content_plan_holds_entry(
    conf: DirectoryConf,
    dir: Seq<char>,
    count: nat,
    at: int,
    action: ActionView,
)
    requires
        0 <= at < count <= conf.content.len(),
        entry_plan(conf.content[at], dir).contains(action),
    ensures
        content_plan(conf, dir, count).contains(action),
    decreases count,
{
    let before = content_plan(conf, dir, (count - 1) as nat);
    let last = entry_plan(conf.content[count - 1], dir);
    if at == count - 1 {
        let k = choose|k: int| 0 <= k < last.len() && last[k] == action;
        assert((before + last)[before.len() + k] == action);
    } else {
        lemma_content_plan_holds_entry(conf, dir, (count - 1) as nat, at, action);
        let k = choose|k: int| 0 <= k < before.len() && before[k] == action;
        assert((before + last)[k] == action);
    }
}

/// Every operation of an entry of a directory is one of the operations of
/// that directory.
pub proof fn lemma_directory_plan_holds_entry(
    conf: DirectoryConf,
    parent: Seq<char>,
    level: u32,
    code: u64,
    at: int,
    action: ActionView,
)
    requires
        0 <= at < conf.content.len(),
        entry_plan(conf.content[at], dir_path(parent, conf.name@, level, code)).contains(action),
    ensures
        directory_plan(conf, parent, level, code).contains(action),
{
    let path = dir_path(parent, conf.name@, level, code);
    let head = seq![ActionView::CreateDir { path }];
    let content = content_plan(conf, path, conf.content.len() as nat);
    lemma_content_plan_holds_entry(conf, path, conf.content.len() as nat, at, action);
    let k = choose|k: int| 0 <= k < content.len() && content[k] == action;
    assert((head + content)[1 + k] == action);
}

/// The plan of a directory begins with the creation of that directory: a
/// directory exists before anything is made inside it.
pub proof fn lemma_directory_is_created_first(
    conf: DirectoryConf,
    parent: Seq<char>,
    level: u32,
    code: u64,
)
    ensures
        directory_plan(conf, parent, level, code).len() >= 1,
        directory_plan(conf, parent, level, code)[0] == (ActionView::CreateDir {
            path: dir_path(parent, conf.name@, level, code),
        }),
        directory_plan(conf, parent, level, code).contains(
            ActionView::CreateDir { path: dir_path(parent, conf.name@, level, code) },
        ),
{
    let plan = directory_plan(conf, parent, level, code);
    assert(plan[0] == (ActionView::CreateDir { path: dir_path(parent, conf.name@, level, code) }));
}

/// Only the sandbox root carries a suffix. For a root directory `a` that
/// holds a directory `b` that holds a directory `c`, built below `start`,
/// the plan creates `start/a_<number>`, then `start/a_<number>/b` and
/// `start/a_<number>/b/c`: the names of `b` and `c` stand as configured.
pub proof fn lemma_only_root_carries_suffix(
    start: Seq<char>,
    a: DirectoryConf,
    b_at: int,
    c_at: int,
    code: u64,
)
    requires
        0 <= b_at < a.content.len(),
        a.content[b_at] is Directory,
        0 <= c_at < a.content[b_at]->Directory_0.content.len(),
        a.content[b_at]->Directory_0.content[c_at] is Directory,
    ensures
        ({
            let b = a.content[b_at]->Directory_0;
            let c = b.content[c_at]->Directory_0;
            let root = join(start, root_name(a.name@, code));
            let plan = directory_plan(a, start, 0, code);
            &&& plan.contains(ActionView::CreateDir { path: root })
            &&& plan.contains(ActionView::CreateDir { path: join(root, b.name@) })
            &&& plan.contains(ActionView::CreateDir { path: join(join(root, b.name@), c.name@) })
        }),
{
    let b = a.content[b_at]->Directory_0;
    let c = b.content[c_at]->Directory_0;
    let root = join(start, root_name(a.name@, code));
    let b_path = join(root, b.name@);
    let c_path = join(b_path, c.name@);
    let make_b = ActionView::CreateDir { path: b_path };
    let make_c = ActionView::CreateDir { path: c_path };
    lemma_directory_is_created_first(a, start, 0, code);

    let b_plan = entry_plan(a.content[b_at], root);
    let b_content = content_plan(b, b_path, b.content.len() as nat);
    assert(b_plan == seq![make_b] + b_content);
    assert(b_plan[0] == make_b);
    lemma_directory_plan_holds_entry(a, start, 0, code, b_at, make_b);

    let c_plan = entry_plan(b.content[c_at], b_path);
    assert(c_plan[0] == make_c);
    lemma_content_plan_holds_entry(b, b_path, b.content.len() as nat, c_at, make_c);
    let k = choose|k: int| 0 <= k < b_content.len() && b_content[k] == make_c;
    assert(b_plan[1 + k] == make_c);
    lemma_directory_plan_holds_entry(a, start, 0, code, b_at, make_c);
}

/// A link that lies directly inside a directory is planned as a hard link
/// at the directory's path, a separator and the link's name.
pub proof fn lemma_link_is_planned(
    conf: DirectoryConf,
    parent: Seq<char>,
    level: u32,
    code: u64,
    at: int,
)
    requires
        0 <= at < conf.content.len(),
        conf.content[at] is Link,
    ensures
        directory_plan(conf, parent, level, code).contains(
            link_action(conf.content[at]->Link_0, dir_path(parent, conf.name@, level, code)),
        ),
{
    let path = dir_path(parent, conf.name@, level, code);
    let action = link_action(conf.content[at]->Link_0, path);
    assert(entry_plan(conf.content[at], path)[0] == action);
    lemma_directory_plan_holds_entry(conf, parent, level, code, at, action);
}

/// A file that lies directly inside a directory is planned as the one
/// operation that its content asks for, at the directory's path, a
/// separator and the file's name.
pub proof fn lemma_file_is_planned(
    conf: DirectoryConf,
    parent: Seq<char>,
    level: u32,
    code: u64,
    at: int,
)
    requires
        0 <= at < conf.content.len(),
        conf.content[at] is File,
    ensures
        directory_plan(conf, parent, level, code).contains(
            file_action(conf.content[at]->File_0, dir_path(parent, conf.name@, level, code)),
        ),
{
    let path = dir_path(parent, conf.name@, level, code);
    let action = file_action(conf.content[at]->File_0, path);
    assert(entry_plan(conf.content[at], path)[0] == action);
    lemma_directory_plan_holds_entry(conf, parent, level, code, at, action);
}

/// Every operation of an entry creates something whose path begins with
/// the path of the directory that the entry lies in.
pub proof fn lemma_entry_plan_stays_inside(entry: ConfigEntry, dir: Seq<char>, at: int)
    requires
        0 <= at < entry_plan(entry, dir).len(),
    ensures
        begins_with(entry_plan(entry, dir)[at].path(), dir),
    decreases entry, 0nat,
{
    match entry {
        ConfigEntry::Directory(conf) => {
            let path = join(dir, conf.name@);
            lemma_join_begins_with_parent(dir, conf.name@);
            if at > 0 {
                let content = content_plan(conf, path, conf.content.len() as nat);
                lemma_content_plan_stays_inside(conf, path, conf.content.len() as nat, at - 1);
                lemma_begins_with_is_transitive(content[at - 1].path(), path, dir);
            }
        },
        ConfigEntry::CloneDirectory(conf) => {
            lemma_join_begins_with_parent(dir, conf.name@);
        },
        ConfigEntry::File(conf) => {
            lemma_join_begins_with_parent(dir, conf.name@);
        },
        ConfigEntry::Link(conf) => {
            lemma_join_begins_with_parent(dir, conf.name@);
        },
    }
}

/// Every operation of the content of a directory creates something whose
/// path begins with the path of that directory.
pub proof fn lemma_content_plan_stays_inside(
    conf: DirectoryConf,
    dir: Seq<char>,
    count: nat,
    at: int,
)
    requires
        0 <= at < content_plan(conf, dir, count).len(),
    ensures
        begins_with(content_plan(conf, dir, count)[at].path(), dir),
    decreases conf, count,
{
    if count > 0 && count <= conf.content.len() {
        let before = content_plan(conf, dir, (count - 1) as nat);
        if at < before.len() {
            lemma_content_plan_stays_inside(conf, dir, (count - 1) as nat, at);
        } else {
            vstd::std_specs::vec::axiom_vec_index_decreases(conf.content, count - 1);
            lemma_entry_plan_stays_inside(conf.content[count - 1], dir, at - before.len());
        }
    }
}

/// Nothing is built outside the sandbox: every operation of the plan of a
/// directory creates something whose path begins with the path of that
/// directory, and the first of them creates the directory itself.
pub proof fn lemma_directory_plan_stays_inside(
    conf: DirectoryConf,
    parent: Seq<char>,
    level: u32,
    code: u64,
    at: int,
)
    requires
        0 <= at < directory_plan(conf, parent, level, code).len(),
    ensures
        begins_with(
            directory_plan(conf, parent, level, code)[at].path(),
            dir_path(parent, conf.name@, level, code),
        ),
{
    let path = dir_path(parent, conf.name@, level, code);
    if at > 0 {
        lemma_content_plan_stays_inside(conf, path, conf.content.len() as nat, at - 1);
    } else {
        assert(path.subrange(0, path.len() as int) =~= path);
    }
}

} // verus!
