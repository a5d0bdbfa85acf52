//! The life of a sandbox: how its construction is prepared, what is done
//! when construction fails, how it is used and how it is torn down.
//!
//! Nothing here touches the disk. The caller reads what has to be read (is
//! this a directory, what is the canonical form of that path), asks this
//! module what to do, and does it.

use vstd::prelude::*;
use crate::rfs::action::{lemma_views_push, views, Action, ActionView};
use crate::rfs::builder::{
    clone_action,
    directory_plan,
    entry_has_link,
    plan_clone,
    plan_directory,
};
use crate::rfs::config::config_entry::ConfigEntry;
use crate::rfs::config::configuration::Configuration;
use crate::rfs::builder::{handed_on, is_first_failure, settle};
use crate::rfs::fs_tester_error::{
    category_of,
    code_text,
    placed_text,
    sandbox_note,
    text_of,
    Category,
    ErrorCode,
    FsTesterError,
};
use crate::rfs::naming::{
    dir_path,
    dir_path_with_code,
    join,
    lemma_distinct_codes_give_distinct_roots,
};
use crate::rfs::permissions::{toggle_allows, Permissions, LINKS_ALLOWED_VALUE};

verus! {

/// The two formats in which a configuration can be written.
#[derive(Debug, Clone, Copy, PartialEq, Eq, Structural)]
pub enum ConfigFormat {
    Json,
    Yaml,
}

/// Whether a character is blank space in front of a configuration text.
pub open spec fn is_blank(c: char) -> bool {
    c == ' ' || c == '\t' || c == '\n' || c == '\r'
}

/// The first character of a text that is not blank, if there is one.
pub open spec fn first_mark(text: Seq<char>) -> Option<char>
    decreases text.len(),
{
    if text.len() == 0 {
        None
    } else if is_blank(text[0]) {
        first_mark(text.drop_first())
    } else {
        Some(text[0])
    }
}

/// The format of a configuration text: JSON when its first character that is
/// not blank opens a JSON object or list, YAML in every other case.
pub open spec fn format_of(text: Seq<char>) -> ConfigFormat {
    match first_mark(text) {
        Some(c) => if c == '{' || c == '[' {
            ConfigFormat::Json
        } else {
            ConfigFormat::Yaml
        },
        None => ConfigFormat::Yaml,
    }
}

/// The directory in which a sandbox is built: the current directory when no
/// start point is given, the start point otherwise.
pub open spec fn base_dir_of(start_point: Seq<char>) -> Seq<char> {
    if start_point.len() == 0 {
        "."@
    } else {
        start_point
    }
}

/// What building a sandbox consists of: the path of the root directory and
/// the operations to perform, in order.
#[derive(Debug, PartialEq, Eq)]
pub struct Plan {
    pub root: String,
    pub actions: Vec<Action>,
}

/// The plan of a buildable root entry below the directory `base`.
pub open spec fn root_plan(entry: ConfigEntry, base: Seq<char>, code: u64) -> Seq<ActionView> {
    match entry {
        ConfigEntry::Directory(conf) => directory_plan(conf, base, 0, code),
        ConfigEntry::CloneDirectory(conf) => seq![clone_action(conf, base, 0, code)],
        _ => Seq::empty(),
    }
}

/// The on-disk path of a buildable root entry below the directory `base`.
pub open spec fn root_path(entry: ConfigEntry, base: Seq<char>, code: u64) -> Seq<char> {
    match entry {
        ConfigEntry::Directory(conf) => dir_path(base, conf.name@, 0, code),
        ConfigEntry::CloneDirectory(conf) => dir_path(base, conf.name@, 0, code),
        _ => Seq::empty(),
    }
}

/// Whether the place to build in is acceptable: no start point at all, or
/// one that is a directory.
pub open spec fn start_point_accepted(start_point: Seq<char>, start_is_dir: bool) -> bool {
    start_point.len() == 0 || start_is_dir
}

/// Whether `planned` is what preparing a sandbox gives for the root number
/// `code`.
///
/// A start point that is not a directory, and a configuration that is not
/// buildable, are refused as a configuration that does not start from a
/// directory. A link anywhere in the configuration is refused while links
/// are switched off. In every other case there is a plan: the root path
/// carries the suffix made from `code`, and the operations are those of the
/// root entry.
pub open spec fn is_sandbox_plan(
    planned: Result<Plan, FsTesterError>,
    config: Configuration,
    start_point: Seq<char>,
    start_is_dir: bool,
    code: u64,
    permissions: Permissions,
) -> bool {
    if !start_point_accepted(start_point, start_is_dir) || !config.buildable() {
        planned is Err && planned->Err_0.is_bare(ErrorCode::ShouldStartFromDirectory)
    } else if !permissions.links_allowed && entry_has_link(config.0[0]) {
        planned is Err && planned->Err_0.is_bare(ErrorCode::LinksNotAllowed)
    } else {
        &&& planned is Ok
        &&& planned->Ok_0.root@ == root_path(config.0[0], base_dir_of(start_point), code)
        &&& views(planned->Ok_0.actions@) == root_plan(
            config.0[0],
            base_dir_of(start_point),
            code,
        )
    }
}

/// What is known of a path on disk when a decision about removing it is
/// made: whether it is a directory, its canonical form, and the canonical
/// forms of the filesystem root and of the current directory. A canonical
/// form is absent when it could not be determined.
#[derive(Debug, PartialEq, Eq)]
pub struct PathFacts {
    pub is_dir: bool,
    pub canonical: Option<String>,
    pub canonical_root: Option<String>,
    pub canonical_current: Option<String>,
}

/// What to do with a sandbox root.
#[derive(Debug, PartialEq, Eq)]
pub enum Cleanup {
    /// Remove the directory at this path with everything in it.
    Remove(String),
    /// Leave the directory in place: it is the filesystem root or the
    /// current directory.
    Refused,
    /// There is no directory to remove.
    Nothing,
}

/// A [`Cleanup`] as a mathematical value.
pub enum CleanupView {
    Remove(Seq<char>),
    Refused,
    Nothing,
}

impl View for Cleanup {
    type V = CleanupView;

    open spec fn view(&self) -> CleanupView {
        match *self {
            Cleanup::Remove(path) => CleanupView::Remove(path@),
            Cleanup::Refused => CleanupView::Refused,
            Cleanup::Nothing => CleanupView::Nothing,
        }
    }
}

/// Whether two paths name the same place: they are written the same, or
/// both have a canonical form and the two forms are the same.
pub open spec fn same_place(
    left: Seq<char>,
    right: Seq<char>,
    left_canonical: Option<Seq<char>>,
    right_canonical: Option<Seq<char>>,
) -> bool {
    left == right || (left_canonical is Some && left_canonical == right_canonical)
}

/// Whether `path` is the filesystem root or the current directory, which
/// are never removed.
pub open spec fn is_protected(path: Seq<char>, facts: PathFacts) -> bool {
    ||| same_place("/"@, path, text_of(facts.canonical_root), text_of(facts.canonical))
    ||| same_place("."@, path, text_of(facts.canonical_current), text_of(facts.canonical))
}

/// What is done with the sandbox root that a failed construction recorded.
///
/// An error that records no root asks for nothing. A recorded root that is
/// the filesystem root or the current directory is never removed. Any other
/// recorded root is removed when it is a directory and left alone when it
/// is not.
pub open spec fn rollback_choice(sandbox_dir: Option<Seq<char>>, facts: PathFacts) -> CleanupView {
    match sandbox_dir {
        None => CleanupView::Nothing,
        Some(dir) => if is_protected(dir, facts) {
            CleanupView::Refused
        } else if facts.is_dir {
            CleanupView::Remove(dir)
        } else {
            CleanupView::Nothing
        },
    }
}

/// What is done with the root of a sandbox that goes out of use: it is
/// removed, unless it is the filesystem root or the current directory.
pub open spec fn teardown_choice(base_dir: Seq<char>, facts: PathFacts) -> CleanupView {
    if is_protected(base_dir, facts) {
        CleanupView::Refused
    } else {
        CleanupView::Remove(base_dir)
    }
}

/// Whether two texts are the same.
fn same_text(left: &str, right: &str) -> (same: bool)
    ensures
        same == (left@ == right@),
{
    let left_owned = String::from_str(left);
    let right_owned = String::from_str(right);
    left_owned == right_owned
}

/// The view of an optional string as an optional text slice.
fn as_text(value: &Option<String>) -> (text: Option<&str>)
    ensures
        match text {
            Some(slice) => text_of(*value) == Some(slice@),
            None => *value is None,
        },
{
    match value {
        Some(owned) => Some(owned.as_str()),
        None => None,
    }
}

/// `rand::rng().random::<u64>()`: a number drawn from the generator of the
/// current thread. Nothing is promised of the number.
#[verifier::external_body]
fn get_random_code() -> u64 {
    rand::Rng::random::<u64>(&mut rand::rng())
}

/// The format of a configuration text. An empty text is no configuration.
pub fn config_format(config_str: &str) -> (found: Result<ConfigFormat, FsTesterError>)
    ensures
        config_str@.len() == 0 ==> found is Err && found->Err_0.is_bare(ErrorCode::EmptyConfig),
        config_str@.len() > 0 ==> found == Ok::<ConfigFormat, FsTesterError>(
            format_of(config_str@),
        ),
{
    let len = config_str.unicode_len();
    if len == 0 {
        return Err(FsTesterError::empty_config());
    }
    let mut index: usize = 0;
    assert(config_str@.skip(0) =~= config_str@);
    while index < len
        invariant
            len == config_str@.len(),
            index <= len,
            first_mark(config_str@) == first_mark(config_str@.skip(index as int)),
        decreases len - index,
    {
        let c = config_str.get_char(index);
        proof {
            let rest = config_str@.skip(index as int);
            assert(rest[0] == c);
            assert(rest.drop_first() =~= config_str@.skip(index + 1));
        }
        if c == ' ' || c == '\t' || c == '\n' || c == '\r' {
            index = index + 1;
        } else if c == '{' || c == '[' {
            return Ok(ConfigFormat::Json);
        } else {
            return Ok(ConfigFormat::Yaml);
        }
    }
    Ok(ConfigFormat::Yaml)
}

/// The directory in which the sandbox is built. No start point means the
/// current directory. A start point must be a directory already: it is
/// never created.
pub fn resolve_start_point(start_point: &str, start_is_dir: bool) -> (resolved: Result<
    String,
    FsTesterError,
>)
    ensures
        start_point_accepted(start_point@, start_is_dir) ==> resolved is Ok && resolved->Ok_0@
            == base_dir_of(start_point@),
        !start_point_accepted(start_point@, start_is_dir) ==> resolved is Err
            && resolved->Err_0.is_bare(ErrorCode::ShouldStartFromDirectory),
{
    if start_point.unicode_len() == 0 {
        Ok(String::from_str("."))
    } else if start_is_dir {
        Ok(String::from_str(start_point))
    } else {
        Err(FsTesterError::should_start_from_directory())
    }
}

/// Prepares a sandbox whose root carries the number `code`: checks the place
/// to build in and the shape of the configuration, applies the permissions,
/// and lists the operations to perform. Nothing has touched the disk when an
/// error is returned.
pub fn plan_sandbox(
    config: &Configuration,
    start_point: &str,
    start_is_dir: bool,
    code: u64,
    permissions: &Permissions,
) -> (planned: Result<Plan, FsTesterError>)
    ensures
        is_sandbox_plan(planned, *config, start_point@, start_is_dir, code, *permissions),
{
    let base = match resolve_start_point(start_point, start_is_dir) {
        Ok(base) => base,
        Err(error) => {
            return Err(error);
        },
    };
    let entry = match config.root() {
        Ok(entry) => entry,
        Err(error) => {
            return Err(error);
        },
    };
    let mut actions: Vec<Action> = Vec::new();
    match entry {
        ConfigEntry::Directory(conf) => {
            match plan_directory(conf, base.as_str(), 0, code, permissions, &mut actions) {
                Ok(root) => {
                    assert(views(actions@) =~= directory_plan(*conf, base@, 0, code));
                    Ok(Plan { root, actions })
                },
                Err(error) => Err(error),
            }
        },
        ConfigEntry::CloneDirectory(conf) => {
            let action = plan_clone(conf, base.as_str(), 0, code);
            let root = String::from_str(action.path());
            proof {
                lemma_views_push(actions@, action);
            }
            actions.push(action);
            assert(views(actions@) =~= seq![clone_action(*conf, base@, 0, code)]);
            Ok(Plan { root, actions })
        },
        _ => Err(FsTesterError::should_start_from_directory()),
    }
}

/// What to do with the sandbox root when construction has failed: the
/// choice that [`rollback_choice`] describes.
///
/// When removing the recorded root is refused, the error is marked to say
/// that the directory was left in place. In every other case the error is
/// unchanged.
pub fn rollback(error: &mut FsTesterError, facts: &PathFacts) -> (cleanup: Cleanup)
    ensures
        cleanup@ == rollback_choice(old(error).spec_sandbox_dir(), *facts),
        cleanup is Refused ==> final(error).spec_cleanup_skipped() && final(error).same_cause(
            *old(error),
        ) && final(error).spec_sandbox_dir() == old(error).spec_sandbox_dir(),
        !(cleanup is Refused) ==> *final(error) == *old(error),
{
    match error.sandbox_dir() {
        None => Cleanup::Nothing,
        Some(dir) => {
            if FsTester::protected(dir.as_str(), facts) {
                error.mark_cleanup_skipped();
                Cleanup::Refused
            } else if facts.is_dir {
                Cleanup::Remove(dir)
            } else {
                Cleanup::Nothing
            }
        },
    }
}

/// A sandbox that was built: the configuration it was built from and the
/// path of its root directory on disk.
#[derive(Debug, PartialEq, Eq)]
pub struct FsTester {
    pub config: Configuration,
    pub base_dir: String,
}

impl FsTester {
    /// The on-disk path of a directory configured as `name` below
    /// `dir_path`. At level 0 the name is followed by an underscore and a
    /// freshly drawn number; at every other level it stands verbatim.
    pub fn gen_dir_path(dir_path: &str, name: &str, level: u32) -> (path: String)
        ensures
            exists|code: u64| path@ == self::dir_path(dir_path@, name@, level, code),
            level > 0 ==> path@ == join(dir_path@, name@),
    {
        let code = if level == 0 {
            get_random_code()
        } else {
            0
        };
        dir_path_with_code(dir_path, name, level, code)
    }

    /// Whether two paths name the same place: they are written the same, or
    /// both have a canonical form and the two forms are the same.
    pub fn cmp_canonical_paths(
        left: &str,
        right: &str,
        left_canonical: Option<&str>,
        right_canonical: Option<&str>,
    ) -> (same: bool)
        ensures
            same == same_place(
                left@,
                right@,
                match left_canonical {
                    Some(text) => Some(text@),
                    None => None,
                },
                match right_canonical {
                    Some(text) => Some(text@),
                    None => None,
                },
            ),
    {
        if same_text(left, right) {
            return true;
        }
        match left_canonical {
            Some(left_form) => match right_canonical {
                Some(right_form) => same_text(left_form, right_form),
                None => false,
            },
            None => false,
        }
    }

    /// Whether `path` is the filesystem root or the current directory.
    pub fn protected(path: &str, facts: &PathFacts) -> (answer: bool)
        ensures
            answer == is_protected(path@, *facts),
    {
        let canonical = as_text(&facts.canonical);
        Self::cmp_canonical_paths("/", path, as_text(&facts.canonical_root), canonical)
            || Self::cmp_canonical_paths(".", path, as_text(&facts.canonical_current), canonical)
    }

    /// Prepares a sandbox with a freshly drawn number for its root: what
    /// [`plan_sandbox`] gives for that number.
    pub fn plan(
        config: &Configuration,
        start_point: &str,
        start_is_dir: bool,
        permissions: &Permissions,
    ) -> (planned: Result<Plan, FsTesterError>)
        ensures
            exists|code: u64|
                is_sandbox_plan(planned, *config, start_point@, start_is_dir, code, *permissions),
    {
        let code = get_random_code();
        plan_sandbox(config, start_point, start_is_dir, code, permissions)
    }

    /// The sandbox that the outcomes of a plan's operations give, the
    /// outcomes taken in the order of the plan.
    ///
    /// If every operation succeeded, the sandbox holds the configuration and
    /// the path of the root. If one failed, there is no sandbox: the result
    /// is the first failure in the order of the plan, with the path of the
    /// root recorded in it, so that the root can be removed again.
    pub fn complete(
        config: Configuration,
        root: String,
        outcomes: Vec<Result<String, FsTesterError>>,
    ) -> (built: Result<FsTester, FsTesterError>)
        ensures
            (forall|index: int| 0 <= index < outcomes.len() ==> outcomes[index] is Ok) ==> built
                is Ok && built->Ok_0.config == config && built->Ok_0.base_dir@ == root@,
            forall|index: int| #[trigger]
                is_first_failure(outcomes@, index) ==> built is Err && handed_on(
                    built->Err_0,
                    outcomes[index]->Err_0,
                    0,
                    root@,
                ),
    {
        match settle(outcomes, 0, root) {
            Ok(base_dir) => Ok(FsTester { config, base_dir }),
            Err(error) => Err(error),
        }
    }

    /// Runs `test_proc` on the path of the sandbox root.
    ///
    /// The procedure must accept that path and must not report a failure:
    /// a failing procedure is a failed test, which this function has no
    /// way to express.
    pub fn perform_fs_test<F>(&self, test_proc: F) where F: Fn(&str) -> std::io::Result<()>
        requires
            forall|dirname: &str|
                dirname@ == self.base_dir@ ==> #[trigger] test_proc.requires((dirname,)),
            forall|dirname: &str, outcome: std::io::Result<()>|
                dirname@ == self.base_dir@ && #[trigger] test_proc.ensures((dirname,), outcome)
                    ==> outcome is Ok,
        ensures
            exists|dirname: &str|
                dirname@ == self.base_dir@ && #[trigger] test_proc.ensures((dirname,), Ok(())),
    {
        let dirname: &str = self.base_dir.as_str();
        let outcome = test_proc(dirname);
        match outcome {
            Ok(done) => {
                assert(done == ());
            },
            Err(_) => {},
        }
    }

    /// What to do with the sandbox root when the sandbox goes out of use:
    /// remove it, unless it is the filesystem root or the current directory.
    pub fn teardown(&self, facts: &PathFacts) -> (cleanup: Cleanup)
        ensures
            cleanup@ == teardown_choice(self.base_dir@, *facts),
    {
        if Self::protected(self.base_dir.as_str(), facts) {
            Cleanup::Refused
        } else {
            Cleanup::Remove(self.base_dir.clone())
        }
    }
}

/// Two sandboxes that are built from the same configuration in the same
/// place lie at different roots whenever the numbers drawn for them differ.
pub proof fn lemma_two_builds_have_different_roots(
    first: Result<Plan, FsTesterError>,
    second: Result<Plan, FsTesterError>,
    config: Configuration,
    start_point: Seq<char>,
    start_is_dir: bool,
    first_code: u64,
    second_code: u64,
    permissions: Permissions,
)
    requires
        is_sandbox_plan(first, config, start_point, start_is_dir, first_code, permissions),
        is_sandbox_plan(second, config, start_point, start_is_dir, second_code, permissions),
        first_code != second_code,
        first is Ok,
    ensures
        second is Ok,
        first->Ok_0.root@ != second->Ok_0.root@,
{
    let base = base_dir_of(start_point);
    match config.0[0] {
        ConfigEntry::Directory(conf) => {
            lemma_distinct_codes_give_distinct_roots(base, conf.name@, first_code, second_code);
        },
        ConfigEntry::CloneDirectory(conf) => {
            lemma_distinct_codes_give_distinct_roots(base, conf.name@, first_code, second_code);
        },
        _ => {},
    }
}

/// A configuration that is not buildable is refused before anything is
/// planned, as a fault of the configuration's format. This holds of a
/// configuration with two entries at its top, and of one whose single top
/// entry is a file or a link: no plan exists for it, so nothing is ever
/// created on disk.
pub proof fn lemma_unbuildable_is_refused(
    planned: Result<Plan, FsTesterError>,
    config: Configuration,
    start_point: Seq<char>,
    start_is_dir: bool,
    code: u64,
    permissions: Permissions,
)
    requires
        is_sandbox_plan(planned, config, start_point, start_is_dir, code, permissions),
        config.0.len() == 2 || (config.0.len() == 1 && (config.0[0] is File
            || config.0[0] is Link)),
    ensures
        !config.buildable(),
        planned is Err,
        planned->Err_0.code() is ShouldStartFromDirectory,
        category_of(planned->Err_0.code()) == Category::ConfigFormat,
        planned->Err_0.spec_sandbox_dir() is None,
{
}

/// Links are gated by the switch. For a buildable configuration that holds
/// a link anywhere, in an accepted place: with the switch unset the sandbox
/// is refused for settings that are not allowed, and nothing is planned;
/// with the switch set to its enabling value there is a plan.
pub proof fn lemma_links_are_gated(
    planned: Result<Plan, FsTesterError>,
    config: Configuration,
    start_point: Seq<char>,
    start_is_dir: bool,
    code: u64,
    toggle: Option<Seq<char>>,
    permissions: Permissions,
)
    requires
        is_sandbox_plan(planned, config, start_point, start_is_dir, code, permissions),
        permissions.links_allowed == toggle_allows(toggle),
        start_point_accepted(start_point, start_is_dir),
        config.buildable(),
        entry_has_link(config.0[0]),
    ensures
        toggle is None ==> planned is Err && category_of(planned->Err_0.code())
            == Category::NotAllowedSettings && planned->Err_0.spec_sandbox_dir() is None,
        toggle == Some(LINKS_ALLOWED_VALUE@) ==> planned is Ok && views(planned->Ok_0.actions@)
            == root_plan(config.0[0], base_dir_of(start_point), code),
{
}

/// A root directory that was created before construction failed does not
/// stay behind. The error that the root hands on records the root's path,
/// and for that path the choice is to remove the directory; only a path
/// that is the filesystem root or the current directory is left in place.
pub proof fn lemma_failed_root_is_removed(
    error: FsTesterError,
    raised: FsTesterError,
    path: Seq<char>,
    facts: PathFacts,
)
    requires
        handed_on(error, raised, 0, path),
        facts.is_dir,
    ensures
        !is_protected(path, facts) ==> rollback_choice(error.spec_sandbox_dir(), facts)
            == CleanupView::Remove(path),
        is_protected(path, facts) ==> rollback_choice(error.spec_sandbox_dir(), facts)
            == CleanupView::Refused,
{
}

/// When removing the created root is refused, the error says so: its text
/// is the text of the cause at its place, followed by the note that the
/// directory was left in place, where it would otherwise announce the
/// removal.
pub proof fn lemma_refused_cleanup_is_told(
    before: FsTesterError,
    after: FsTesterError,
    dir: Seq<char>,
    detail: Seq<char>,
)
    requires
        before.spec_sandbox_dir() == Some(dir),
        !before.spec_cleanup_skipped(),
        after.same_cause(before),
        after.spec_sandbox_dir() == Some(dir),
        after.spec_cleanup_skipped(),
    ensures
        before.message_text(detail) == placed_text(
            code_text(before.code(), detail),
            before.spec_line(),
            before.spec_column(),
        ) + sandbox_note(Some(dir), false),
        after.message_text(detail) == placed_text(
            code_text(before.code(), detail),
            before.spec_line(),
            before.spec_column(),
        ) + sandbox_note(Some(dir), true),
{
}

/// An error from below the root is handed on unchanged, so it never asks
/// for the removal of a directory that is not the sandbox root.
pub proof fn lemma_nested_failure_records_no_root(
    error: FsTesterError,
    raised: FsTesterError,
    level: u32,
    path: Seq<char>,
    facts: PathFacts,
)
    requires
        level > 0,
        handed_on(error, raised, level, path),
        raised.spec_sandbox_dir() is None,
    ensures
        rollback_choice(error.spec_sandbox_dir(), facts) == CleanupView::Nothing,
{
}

/// The filesystem root and the current directory are never removed,
/// neither when construction fails nor when a sandbox goes out of use,
/// whatever else is known of the path.
pub proof fn lemma_guard_protects_root_and_current(path: Seq<char>, facts: PathFacts)
    requires
        path == "/"@ || path == "."@ || (facts.canonical is Some && (text_of(facts.canonical)
            == text_of(facts.canonical_root) || text_of(facts.canonical) == text_of(
            facts.canonical_current,
        ))),
    ensures
        is_protected(path, facts),
        rollback_choice(Some(path), facts) == CleanupView::Refused,
        teardown_choice(path, facts) == CleanupView::Refused,
{
}

/// A sandbox root that is neither the filesystem root nor the current
/// directory is removed when the sandbox goes out of use.
pub proof fn lemma_teardown_removes_sandbox(base_dir: Seq<char>, facts: PathFacts)
    requires
        !is_protected(base_dir, facts),
    ensures
        teardown_choice(base_dir, facts) == CleanupView::Remove(base_dir),
{
}

} // verus!
