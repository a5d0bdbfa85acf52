//! The errors of building and tearing down a sandbox.

use vstd::prelude::*;
use vstd::std_specs::convert::FromSpecImpl;
use crate::rfs::naming::{append_decimal, decimal};

verus! {

/// `serde_json::Error`: what the JSON reader reports. Its inside is not
/// looked into.
#[verifier::external_type_specification]
#[verifier::external_body]
pub struct ExJsonError(serde_json::Error);

/// `serde_yaml::Error`: what the YAML reader reports. Its inside is not
/// looked into.
#[verifier::external_type_specification]
#[verifier::external_body]
pub struct ExYamlError(serde_yaml::Error);

/// `walkdir::Error`: a failed step of a walk through a directory. Its
/// inside is not looked into.
#[verifier::external_type_specification]
#[verifier::external_body]
pub struct ExWalkdirError(walkdir::Error);

/// `std::io::Error`: a failed operation on the filesystem. Its inside is
/// not looked into.
#[verifier::external_type_specification]
#[verifier::external_body]
pub struct ExIoError(std::io::Error);

/// `std::io::ErrorKind`: the kinds of I/O errors, an enumeration without
/// fields whose variants are known by name.
#[verifier::external_type_specification]
pub struct ExIoErrorKind(std::io::ErrorKind);

/// `serde_yaml::Location`: the place of a YAML error. Its inside is not
/// looked into.
#[verifier::external_type_specification]
#[verifier::external_body]
pub struct ExYamlLocation(serde_yaml::Location);

/// `tokio::sync::AcquireError`: a permit that a closed semaphore did not
/// grant. Its inside is not looked into.
#[verifier::external_type_specification]
#[verifier::external_body]
pub struct ExAcquireError(tokio::sync::AcquireError);

/// `tokio::task::JoinError`: a task that was cancelled or panicked. Its
/// inside is not looked into.
#[verifier::external_type_specification]
#[verifier::external_body]
pub struct ExJoinError(tokio::task::JoinError);

/// The broad kinds of failure.
#[derive(Debug, Copy, Clone, PartialEq, Eq, Structural)]
pub enum Category {
    /// The configuration is empty or does not start from one directory.
    ConfigFormat,
    /// The configuration uses a feature that was not switched on.
    NotAllowedSettings,
    /// The configuration text could not be read in its format.
    Syntax,
    /// An operation on the filesystem failed.
    Io,
    /// A unit of concurrent work could not be scheduled or ended abnormally.
    Multitasking,
}

/// The cause of a failure.
#[derive(Debug)]
pub enum ErrorCode {
    /// The configuration text is empty.
    EmptyConfig,
    /// The configuration does not start from exactly one directory, or the
    /// place to build in is not a directory.
    ShouldStartFromDirectory,
    /// The configuration holds a link while links are switched off.
    LinksNotAllowed,
    /// The YAML reader rejected the configuration text.
    YamlSyntax(serde_yaml::Error),
    /// The JSON reader rejected the configuration text.
    JsonSyntax(serde_json::Error),
    /// Walking through a directory failed.
    WalkDir(walkdir::Error),
    /// An operation on the filesystem failed.
    Io(std::io::Error),
    /// A permit of the pool that bounds concurrent file work was not granted.
    AcquireError(tokio::sync::AcquireError),
    /// A concurrently scheduled unit of work ended abnormally.
    JoinError(tokio::task::JoinError),
}

/// The kind of failure that a cause belongs to.
pub open spec fn category_of(code: ErrorCode) -> Category {
    match code {
        ErrorCode::EmptyConfig | ErrorCode::ShouldStartFromDirectory => Category::ConfigFormat,
        ErrorCode::LinksNotAllowed => Category::NotAllowedSettings,
        ErrorCode::JsonSyntax(_) | ErrorCode::YamlSyntax(_) => Category::Syntax,
        ErrorCode::Io(_) | ErrorCode::WalkDir(_) => Category::Io,
        ErrorCode::AcquireError(_) | ErrorCode::JoinError(_) => Category::Multitasking,
    }
}

/// The line that `serde_json::Error::line` reports for an error.
pub uninterp spec fn json_error_line(err: serde_json::Error) -> usize;

/// The column that `serde_json::Error::column` reports for an error.
pub uninterp spec fn json_error_column(err: serde_json::Error) -> usize;

/// Whether `serde_json::Error::is_io` holds of an error: it was caused by
/// a failure to read or write bytes.
pub uninterp spec fn json_error_is_io(err: serde_json::Error) -> bool;

/// The I/O error that a `serde_json::Error` converts into.
pub uninterp spec fn json_error_as_io(err: serde_json::Error) -> std::io::Error;

/// The location that `serde_yaml::Error::location` reports for an error.
pub uninterp spec fn yaml_error_location(err: serde_yaml::Error) -> Option<serde_yaml::Location>;

/// The line that `serde_yaml::Location::line` reports for a location.
pub uninterp spec fn yaml_location_line(location: serde_yaml::Location) -> usize;

/// The column that `serde_yaml::Location::column` reports for a location.
pub uninterp spec fn yaml_location_column(location: serde_yaml::Location) -> usize;

/// The kind that `std::io::Error::kind` reports for an error.
pub uninterp spec fn io_error_kind_of(err: std::io::Error) -> std::io::ErrorKind;

/// `serde_json::Error::line`: the line at which the JSON reader found the
/// error, a field of the error.
#[verifier::external_body]
fn json_line(err: &serde_json::Error) -> (line: usize)
    ensures
        line == json_error_line(*err),
{
    err.line()
}

/// `serde_json::Error::column`: the column at which the JSON reader found
/// the error, a field of the error.
#[verifier::external_body]
fn json_column(err: &serde_json::Error) -> (column: usize)
    ensures
        column == json_error_column(*err),
{
    err.column()
}

/// `serde_json::Error::is_io`: whether the error was caused by a failure to
/// read or write bytes.
#[verifier::external_body]
fn json_is_io(err: &serde_json::Error) -> (answer: bool)
    ensures
        answer == json_error_is_io(*err),
{
    err.is_io()
}

/// The conversion of a `serde_json::Error` into a `std::io::Error` that
/// `serde_json` provides.
#[verifier::external_body]
fn json_into_io(err: serde_json::Error) -> (converted: std::io::Error)
    ensures
        converted == json_error_as_io(err),
{
    std::io::Error::from(err)
}

/// `serde_yaml::Error::location`: where the YAML reader found the error, if
/// the error has a place.
#[verifier::external_body]
fn yaml_location(err: &serde_yaml::Error) -> (location: Option<serde_yaml::Location>)
    ensures
        location == yaml_error_location(*err),
{
    err.location()
}

/// `serde_yaml::Location::line`: the line of a location, a field of it.
#[verifier::external_body]
fn location_line(location: &serde_yaml::Location) -> (line: usize)
    ensures
        line == yaml_location_line(*location),
{
    location.line()
}

/// `serde_yaml::Location::column`: the column of a location, a field of it.
#[verifier::external_body]
fn location_column(location: &serde_yaml::Location) -> (column: usize)
    ensures
        column == yaml_location_column(*location),
{
    location.column()
}

/// `std::io::Error::kind`: the kind of an I/O error.
#[verifier::external_body]
fn io_kind(err: &std::io::Error) -> (kind: std::io::ErrorKind)
    ensures
        kind == io_error_kind_of(*err),
{
    err.kind()
}

/// `std::io::Error::new` with the kind `InvalidData` and a message as its
/// payload: the error that is made has the kind it was made with.
#[verifier::external_body]
fn invalid_data(message: String) -> (made: std::io::Error)
    ensures
        io_error_kind_of(made) == std::io::ErrorKind::InvalidData,
{
    std::io::Error::new(std::io::ErrorKind::InvalidData, message)
}

/// How `tokio::sync::AcquireError` displays itself: always with the same
/// words, since the only way to be refused a permit is a closed semaphore.
#[verifier::external_body]
fn acquire_error_text(err: &tokio::sync::AcquireError) -> (text: String)
    ensures
        text@ == CLOSED_SEMAPHORE_TEXT@,
{
    err.to_string()
}

/// The line of the place that a YAML error has, 0 when it has none.
pub open spec fn yaml_error_line(err: serde_yaml::Error) -> usize {
    match yaml_error_location(err) {
        Some(location) => yaml_location_line(location),
        None => 0,
    }
}

/// The column of the place that a YAML error has, 0 when it has none.
pub open spec fn yaml_error_column(err: serde_yaml::Error) -> usize {
    match yaml_error_location(err) {
        Some(location) => yaml_location_column(location),
        None => 0,
    }
}

/// The cause that a JSON error stands for: a failure to read or write bytes
/// is the I/O error it holds, everything else is a fault of the text.
pub open spec fn json_cause(err: serde_json::Error) -> ErrorCode {
    if json_error_is_io(err) {
        ErrorCode::Io(json_error_as_io(err))
    } else {
        ErrorCode::JsonSyntax(err)
    }
}

/// The text of an error about an empty configuration.
pub const EMPTY_CONFIG_TEXT: &'static str = "The configuration should not be empty.";

/// The text of an error about a configuration without a single root directory.
pub const SHOULD_START_FROM_DIRECTORY_TEXT: &'static str =
    "The configuration should start from the containing directory.";

/// The text of an error about a link while links are switched off. It says
/// what the risk of a link is and how links are switched on.
pub const LINKS_NOT_ALLOWED_TEXT: &'static str = r#"
                    The use of links has been disabled!
                    !!! Be warned that the contents of linked files may be corrupted !!!
                    If you want to enable the use of links, you can do so at your own risk
                    by setting the LINKS_ALLOWED environment variable to "Y".
                    "#;

/// How a permit that was not granted describes itself.
pub const CLOSED_SEMAPHORE_TEXT: &'static str = "semaphore closed";

/// What the text of a cause begins with when the cause holds the error of a
/// reader, of the filesystem or of the scheduler; the text of a cause of
/// the configuration itself is fixed and has no such beginning.
pub open spec fn code_prefix(code: ErrorCode) -> Seq<char> {
    match code {
        ErrorCode::WalkDir(_) => "Walkdir error: "@,
        ErrorCode::Io(_) => "IO error: "@,
        ErrorCode::JsonSyntax(_) => "JSON syntax error: "@,
        ErrorCode::YamlSyntax(_) => "YAML syntax error: "@,
        ErrorCode::AcquireError(_) => "Semaphore err: "@,
        ErrorCode::JoinError(_) => "Join handle err: "@,
        _ => Seq::empty(),
    }
}

/// Whether a cause is a fault of the configuration itself, with a fixed
/// text, and holds no error that came from elsewhere.
pub open spec fn is_own(code: ErrorCode) -> bool {
    code is EmptyConfig || code is ShouldStartFromDirectory || code is LinksNotAllowed
}

/// The detail of a cause, where it is known beforehand: empty for a cause
/// of the configuration itself, which holds no error, and fixed words for a
/// permit that was not granted. What the error of a reader, of the
/// filesystem or of a task says of itself is not known beforehand.
pub open spec fn known_detail(code: ErrorCode) -> Option<Seq<char>> {
    match code {
        ErrorCode::EmptyConfig
        | ErrorCode::ShouldStartFromDirectory
        | ErrorCode::LinksNotAllowed => Some(Seq::empty()),
        ErrorCode::AcquireError(_) => Some(CLOSED_SEMAPHORE_TEXT@),
        _ => None,
    }
}

/// Whether `detail` is how the error that a cause holds describes itself
/// when it is displayed. A cause of the configuration itself holds no error
/// and has the empty detail.
pub open spec fn describes(code: ErrorCode, detail: String) -> bool {
    match code {
        ErrorCode::YamlSyntax(err) => vstd::string::to_string_from_display_ensures::<
            serde_yaml::Error,
        >(&err, detail),
        ErrorCode::JsonSyntax(err) => vstd::string::to_string_from_display_ensures::<
            serde_json::Error,
        >(&err, detail),
        ErrorCode::WalkDir(err) => vstd::string::to_string_from_display_ensures::<walkdir::Error>(
            &err,
            detail,
        ),
        ErrorCode::Io(err) => vstd::string::to_string_from_display_ensures::<std::io::Error>(
            &err,
            detail,
        ),
        ErrorCode::AcquireError(_) => detail@ == CLOSED_SEMAPHORE_TEXT@,
        ErrorCode::JoinError(err) => vstd::string::to_string_from_display_ensures::<
            tokio::task::JoinError,
        >(&err, detail),
        _ => detail@ == Seq::<char>::empty(),
    }
}

/// The text of a cause. `detail` is how the error that the cause holds
/// describes itself; a cause of the configuration itself has a fixed text
/// and no detail.
pub open spec fn code_text(code: ErrorCode, detail: Seq<char>) -> Seq<char> {
    match code {
        ErrorCode::EmptyConfig => EMPTY_CONFIG_TEXT@,
        ErrorCode::ShouldStartFromDirectory => SHOULD_START_FROM_DIRECTORY_TEXT@,
        ErrorCode::LinksNotAllowed => LINKS_NOT_ALLOWED_TEXT@,
        _ => code_prefix(code) + detail,
    }
}

/// A text with the place at which the error was found behind it. Line 0
/// means that there is no place, and nothing is added.
pub open spec fn placed_text(text: Seq<char>, line: usize, column: usize) -> Seq<char> {
    if line == 0 {
        text
    } else {
        text + " at line "@ + decimal(line as nat) + " column "@ + decimal(column as nat)
    }
}

/// What an error says of the sandbox root that had been created: that it
/// will be removed, or, when removing it was refused, that it was left in
/// place. Without such a root nothing is said.
pub open spec fn sandbox_note(sandbox_dir: Option<Seq<char>>, cleanup_skipped: bool) -> Seq<char> {
    match sandbox_dir {
        None => Seq::empty(),
        Some(dir) => if cleanup_skipped {
            " Created dir \""@ + dir
                + "\" was left in place: removing the root or the current directory is refused."@
        } else {
            " Created dir \""@ + dir + "\" will be removed."@
        },
    }
}

/// The whole text of an error: the text of its cause, the place, and the
/// note on the sandbox root.
pub open spec fn composed_text(
    text: Seq<char>,
    line: usize,
    column: usize,
    sandbox_dir: Option<Seq<char>>,
    cleanup_skipped: bool,
) -> Seq<char> {
    placed_text(text, line, column) + sandbox_note(sandbox_dir, cleanup_skipped)
}

/// The whole text of an error from the text of its cause, the place at
/// which it was found and what is known of the sandbox root.
pub fn compose_message(
    text: &str,
    line: usize,
    column: usize,
    sandbox_dir: Option<&str>,
    cleanup_skipped: bool,
) -> (message: String)
    ensures
        message@ == composed_text(
            text@,
            line,
            column,
            match sandbox_dir {
                Some(dir) => Some(dir@),
                None => None,
            },
            cleanup_skipped,
        ),
{
    let mut message = String::from_str(text);
    if line != 0 {
        message.append(" at line ");
        append_decimal(&mut message, line as u64);
        message.append(" column ");
        append_decimal(&mut message, column as u64);
    }
    let ghost placed = message@;
    match sandbox_dir {
        Some(dir) => {
            message.append(" Created dir \"");
            message.append(dir);
            if cleanup_skipped {
                message.append(
                    "\" was left in place: removing the root or the current directory is refused.",
                );
            } else {
                message.append("\" will be removed.");
            }
            assert(message@ =~= placed + sandbox_note(Some(dir@), cleanup_skipped));
        },
        None => {
            assert(message@ =~= placed + sandbox_note(None, cleanup_skipped));
        },
    }
    message
}

/// A failure of building a sandbox: its cause, the place in the
/// configuration text where it was found (line 0 when there is none), and,
/// when it happened while the root directory was being filled, the path of
/// that directory.
#[derive(Debug)]
pub struct FsTesterError {
    code: ErrorCode,
    line: usize,
    column: usize,
    sandbox_dir: Option<String>,
    cleanup_skipped: bool,
}

/// The text view of an optional string.
pub open spec fn text_of(value: Option<String>) -> Option<Seq<char>> {
    match value {
        Some(text) => Some(text@),
        None => None,
    }
}

impl FsTesterError {
    /// The cause of this error.
    pub closed spec fn code(&self) -> ErrorCode {
        self.code
    }

    /// The line of the configuration text at which the error was found.
    pub closed spec fn spec_line(&self) -> usize {
        self.line
    }

    /// The column of the configuration text at which the error was found.
    pub closed spec fn spec_column(&self) -> usize {
        self.column
    }

    /// The path of the sandbox root that was created before the error.
    pub closed spec fn spec_sandbox_dir(&self) -> Option<Seq<char>> {
        text_of(self.sandbox_dir)
    }

    /// Whether removing the created sandbox root was refused.
    pub closed spec fn spec_cleanup_skipped(&self) -> bool {
        self.cleanup_skipped
    }

    /// An error as its constructors make it: the cause alone, at no place,
    /// with no sandbox root.
    pub open spec fn is_bare(&self, code: ErrorCode) -> bool {
        self.is_placed(code, 0, 0)
    }

    /// The same error as `other` but for the sandbox root and the mark that
    /// its removal was refused.
    pub open spec fn same_cause(&self, other: FsTesterError) -> bool {
        &&& self.code() == other.code()
        &&& self.spec_line() == other.spec_line()
        &&& self.spec_column() == other.spec_column()
    }

    /// An error found at a place of the configuration text: the cause at
    /// that line and column, with no sandbox root.
    pub open spec fn is_placed(&self, code: ErrorCode, line: usize, column: usize) -> bool {
        &&& self.code() == code
        &&& self.spec_line() == line
        &&& self.spec_column() == column
        &&& self.spec_sandbox_dir() is None
        &&& !self.spec_cleanup_skipped()
    }

    fn bare(code: ErrorCode) -> (error: Self)
        ensures
            error.is_bare(code),
    {
        FsTesterError { code, line: 0, column: 0, sandbox_dir: None, cleanup_skipped: false }
    }

    /// The error of an empty configuration text.
    pub fn empty_config() -> (error: Self)
        ensures
            error.is_bare(ErrorCode::EmptyConfig),
    {
        Self::bare(ErrorCode::EmptyConfig)
    }

    /// The error of a configuration that does not start from one directory.
    pub fn should_start_from_directory() -> (error: Self)
        ensures
            error.is_bare(ErrorCode::ShouldStartFromDirectory),
    {
        Self::bare(ErrorCode::ShouldStartFromDirectory)
    }

    /// The error of a link in a configuration while links are switched off.
    pub fn not_allowed_settings() -> (error: Self)
        ensures
            error.is_bare(ErrorCode::LinksNotAllowed),
    {
        Self::bare(ErrorCode::LinksNotAllowed)
    }

    /// The error of a failed filesystem operation.
    pub fn io_error(err: std::io::Error) -> (error: Self)
        ensures
            error.is_bare(ErrorCode::Io(err)),
    {
        Self::bare(ErrorCode::Io(err))
    }

    /// The error of a failed walk through a directory.
    pub fn walkdir_error(err: walkdir::Error) -> (error: Self)
        ensures
            error.is_bare(ErrorCode::WalkDir(err)),
    {
        Self::bare(ErrorCode::WalkDir(err))
    }

    /// The cause of this error.
    pub fn cause(&self) -> (code: &ErrorCode)
        ensures
            *code == self.code(),
    {
        &self.code
    }

    /// The line at which the error was found, counted from one; 0 when the
    /// error has no place in the configuration text.
    #[verifier::when_used_as_spec(spec_line)]
    pub fn line(&self) -> (line: usize)
        ensures
            line == self.spec_line(),
    {
        self.line
    }

    /// The column at which the error was found.
    #[verifier::when_used_as_spec(spec_column)]
    pub fn column(&self) -> (column: usize)
        ensures
            column == self.spec_column(),
    {
        self.column
    }

    /// The path of the sandbox root that was created before the error, if
    /// the error happened while that directory was being filled.
    pub fn sandbox_dir(&self) -> (dir: Option<String>)
        ensures
            text_of(dir) == self.spec_sandbox_dir(),
    {
        match &self.sandbox_dir {
            Some(dir) => Some(dir.clone()),
            None => None,
        }
    }

    /// Records, or forgets, the path of the created sandbox root. Nothing
    /// else of the error changes, but a fresh path is one whose removal has
    /// not been refused.
    pub fn set_sandbox_dir(&mut self, sandbox_dir: Option<String>)
        ensures
            final(self).spec_sandbox_dir() == text_of(sandbox_dir),
            final(self).same_cause(*old(self)),
            !final(self).spec_cleanup_skipped(),
    {
        self.sandbox_dir = sandbox_dir;
        self.cleanup_skipped = false;
    }

    /// Whether removing the created sandbox root was refused.
    #[verifier::when_used_as_spec(spec_cleanup_skipped)]
    pub fn cleanup_skipped(&self) -> (skipped: bool)
        ensures
            skipped == self.spec_cleanup_skipped(),
    {
        self.cleanup_skipped
    }

    /// Marks that the created sandbox root was left in place because
    /// removing it was refused. Nothing else of the error changes.
    pub fn mark_cleanup_skipped(&mut self)
        ensures
            final(self).spec_cleanup_skipped(),
            final(self).spec_sandbox_dir() == old(self).spec_sandbox_dir(),
            final(self).same_cause(*old(self)),
    {
        self.cleanup_skipped = true;
    }

    /// The kind of failure that this error belongs to.
    pub fn classify(&self) -> (category: Category)
        ensures
            category == category_of(self.code()),
    {
        match self.code {
            ErrorCode::EmptyConfig | ErrorCode::ShouldStartFromDirectory => Category::ConfigFormat,
            ErrorCode::LinksNotAllowed => Category::NotAllowedSettings,
            ErrorCode::JsonSyntax(_) | ErrorCode::YamlSyntax(_) => Category::Syntax,
            ErrorCode::Io(_) | ErrorCode::WalkDir(_) => Category::Io,
            ErrorCode::AcquireError(_) | ErrorCode::JoinError(_) => Category::Multitasking,
        }
    }

    /// Whether a filesystem operation failed.
    pub fn is_io(&self) -> (answer: bool)
        ensures
            answer == (category_of(self.code()) == Category::Io),
    {
        self.classify() == Category::Io
    }

    /// Whether the configuration text could not be read in its format.
    pub fn is_syntax(&self) -> (answer: bool)
        ensures
            answer == (category_of(self.code()) == Category::Syntax),
    {
        self.classify() == Category::Syntax
    }

    /// Whether the configuration is empty or does not start from one
    /// directory.
    pub fn is_config_format(&self) -> (answer: bool)
        ensures
            answer == (category_of(self.code()) == Category::ConfigFormat),
    {
        self.classify() == Category::ConfigFormat
    }

    /// Whether concurrent work could not be scheduled or ended abnormally.
    pub fn is_multitasking(&self) -> (answer: bool)
        ensures
            answer == (category_of(self.code()) == Category::Multitasking),
    {
        self.classify() == Category::Multitasking
    }

    /// Whether the configuration uses a feature that was not switched on.
    pub fn is_not_allowed_settings(&self) -> (answer: bool)
        ensures
            answer == (category_of(self.code()) == Category::NotAllowedSettings),
    {
        self.classify() == Category::NotAllowedSettings
    }

    /// Whether the configuration text was empty.
    pub fn is_empty_config(&self) -> (answer: bool)
        ensures
            answer == (self.code() is EmptyConfig),
    {
        match self.code {
            ErrorCode::EmptyConfig => true,
            _ => false,
        }
    }

    /// Whether the configuration does not start from one directory.
    pub fn is_should_start_from_directory(&self) -> (answer: bool)
        ensures
            answer == (self.code() is ShouldStartFromDirectory),
    {
        match self.code {
            ErrorCode::ShouldStartFromDirectory => true,
            _ => false,
        }
    }

    /// The text of this error when the error that its cause holds describes
    /// itself as `detail`.
    pub open spec fn message_text(&self, detail: Seq<char>) -> Seq<char> {
        composed_text(
            code_text(self.code(), detail),
            self.spec_line(),
            self.spec_column(),
            self.spec_sandbox_dir(),
            self.spec_cleanup_skipped(),
        )
    }

    /// How the error that the cause holds describes itself; empty for a
    /// cause of the configuration itself.
    fn detail(&self) -> (detail: String)
        ensures
            describes(self.code(), detail),
    {
        match &self.code {
            ErrorCode::YamlSyntax(err) => err.to_string(),
            ErrorCode::JsonSyntax(err) => err.to_string(),
            ErrorCode::WalkDir(err) => err.to_string(),
            ErrorCode::Io(err) => err.to_string(),
            ErrorCode::AcquireError(err) => acquire_error_text(err),
            ErrorCode::JoinError(err) => err.to_string(),
            _ => String::new(),
        }
    }

    /// The text of this error, given how the error that its cause holds
    /// describes itself.
    pub fn message_with(&self, detail: &str) -> (message: String)
        ensures
            message@ == self.message_text(detail@),
    {
        let mut text = match &self.code {
            ErrorCode::EmptyConfig => String::from_str(EMPTY_CONFIG_TEXT),
            ErrorCode::ShouldStartFromDirectory => String::from_str(
                SHOULD_START_FROM_DIRECTORY_TEXT,
            ),
            ErrorCode::LinksNotAllowed => String::from_str(LINKS_NOT_ALLOWED_TEXT),
            ErrorCode::WalkDir(_) => String::from_str("Walkdir error: "),
            ErrorCode::Io(_) => String::from_str("IO error: "),
            ErrorCode::JsonSyntax(_) => String::from_str("JSON syntax error: "),
            ErrorCode::YamlSyntax(_) => String::from_str("YAML syntax error: "),
            ErrorCode::AcquireError(_) => String::from_str("Semaphore err: "),
            ErrorCode::JoinError(_) => String::from_str("Join handle err: "),
        };
        if !self.is_own_cause() {
            text.append(detail);
        }
        let sandbox_dir = match &self.sandbox_dir {
            Some(dir) => Some(dir.as_str()),
            None => None,
        };
        compose_message(text.as_str(), self.line, self.column, sandbox_dir, self.cleanup_skipped)
    }

    /// Whether the cause is a fault of the configuration itself.
    pub fn is_own_cause(&self) -> (answer: bool)
        ensures
            answer == is_own(self.code()),
    {
        match &self.code {
            ErrorCode::EmptyConfig
            | ErrorCode::ShouldStartFromDirectory
            | ErrorCode::LinksNotAllowed => true,
            _ => false,
        }
    }

    /// The text of this error: the text of the cause, then the place at
    /// which it was found, then the note on the sandbox root. For a cause of
    /// the configuration itself, and for a permit that was not granted, the
    /// text is fixed. For any other cause it holds, behind a fixed beginning,
    /// what the error that the cause holds displays of itself; what that is,
    /// is not known here.
    pub fn message(&self) -> (message: String)
        ensures
            exists|detail: String|
                describes(self.code(), detail) && message@ == self.message_text(detail@),
            known_detail(self.code()) matches Some(detail) ==> message@ == self.message_text(
                detail,
            ),
    {
        let detail = self.detail();
        self.message_with(detail.as_str())
    }

    /// The kind of the I/O error that caused this error, if an I/O error
    /// did. A failed walk through a directory gives none.
    pub fn io_error_kind(&self) -> (kind: Option<std::io::ErrorKind>)
        ensures
            match self.code() {
                ErrorCode::Io(err) => kind == Some(io_error_kind_of(err)),
                _ => kind is None,
            },
    {
        match &self.code {
            ErrorCode::Io(err) => Some(io_kind(err)),
            _ => None,
        }
    }
}

impl From<std::io::Error> for FsTesterError {
    /// The error of a failed filesystem operation.
    fn from(err: std::io::Error) -> (error: FsTesterError)
        ensures
            error.is_bare(ErrorCode::Io(err)),
    {
        FsTesterError::io_error(err)
    }
}

impl FromSpecImpl<std::io::Error> for FsTesterError {
    open spec fn obeys_from_spec() -> bool {
        true
    }

    closed spec fn from_spec(err: std::io::Error) -> FsTesterError {
        FsTesterError {
            code: ErrorCode::Io(err),
            line: 0,
            column: 0,
            sandbox_dir: None,
            cleanup_skipped: false,
        }
    }
}

impl From<serde_json::Error> for FsTesterError {
    /// The error of a configuration text that the JSON reader rejected, at
    /// the line and column that the reader reports.
    fn from(err: serde_json::Error) -> (error: FsTesterError)
        ensures
            error.is_placed(json_cause(err), json_error_line(err), json_error_column(err)),
    {
        let line = json_line(&err);
        let column = json_column(&err);
        let code = if json_is_io(&err) {
            ErrorCode::Io(json_into_io(err))
        } else {
            ErrorCode::JsonSyntax(err)
        };
        FsTesterError { code, line, column, sandbox_dir: None, cleanup_skipped: false }
    }
}

impl FromSpecImpl<serde_json::Error> for FsTesterError {
    open spec fn obeys_from_spec() -> bool {
        true
    }

    closed spec fn from_spec(err: serde_json::Error) -> FsTesterError {
        FsTesterError {
            code: json_cause(err),
            line: json_error_line(err),
            column: json_error_column(err),
            sandbox_dir: None,
            cleanup_skipped: false,
        }
    }
}

impl From<serde_yaml::Error> for FsTesterError {
    /// The error of a configuration text that the YAML reader rejected, at
    /// the line and column that the reader reports, or at line 0 and
    /// column 0 when it reports no place.
    fn from(err: serde_yaml::Error) -> (error: FsTesterError)
        ensures
            error.is_placed(
                ErrorCode::YamlSyntax(err),
                yaml_error_line(err),
                yaml_error_column(err),
            ),
    {
        let location = yaml_location(&err);
        let (line, column) = match &location {
            Some(place) => (location_line(place), location_column(place)),
            None => (0, 0),
        };
        FsTesterError {
            code: ErrorCode::YamlSyntax(err),
            line,
            column,
            sandbox_dir: None,
            cleanup_skipped: false,
        }
    }
}

impl FromSpecImpl<serde_yaml::Error> for FsTesterError {
    open spec fn obeys_from_spec() -> bool {
        true
    }

    closed spec fn from_spec(err: serde_yaml::Error) -> FsTesterError {
        FsTesterError {
            code: ErrorCode::YamlSyntax(err),
            line: yaml_error_line(err),
            column: yaml_error_column(err),
            sandbox_dir: None,
            cleanup_skipped: false,
        }
    }
}

impl From<walkdir::Error> for FsTesterError {
    /// The error of a failed walk through a directory.
    fn from(err: walkdir::Error) -> (error: FsTesterError)
        ensures
            error.is_bare(ErrorCode::WalkDir(err)),
    {
        FsTesterError::walkdir_error(err)
    }
}

impl FromSpecImpl<walkdir::Error> for FsTesterError {
    open spec fn obeys_from_spec() -> bool {
        true
    }

    closed spec fn from_spec(err: walkdir::Error) -> FsTesterError {
        FsTesterError {
            code: ErrorCode::WalkDir(err),
            line: 0,
            column: 0,
            sandbox_dir: None,
            cleanup_skipped: false,
        }
    }
}

impl From<tokio::sync::AcquireError> for FsTesterError {
    /// The error of a permit that the pool did not grant.
    fn from(err: tokio::sync::AcquireError) -> (error: FsTesterError)
        ensures
            error.is_bare(ErrorCode::AcquireError(err)),
    {
        FsTesterError::bare(ErrorCode::AcquireError(err))
    }
}

impl FromSpecImpl<tokio::sync::AcquireError> for FsTesterError {
    open spec fn obeys_from_spec() -> bool {
        true
    }

    closed spec fn from_spec(err: tokio::sync::AcquireError) -> FsTesterError {
        FsTesterError {
            code: ErrorCode::AcquireError(err),
            line: 0,
            column: 0,
            sandbox_dir: None,
            cleanup_skipped: false,
        }
    }
}

impl From<tokio::task::JoinError> for FsTesterError {
    /// The error of a unit of concurrent work that ended abnormally.
    fn from(err: tokio::task::JoinError) -> (error: FsTesterError)
        ensures
            error.is_bare(ErrorCode::JoinError(err)),
    {
        FsTesterError::bare(ErrorCode::JoinError(err))
    }
}

impl FromSpecImpl<tokio::task::JoinError> for FsTesterError {
    open spec fn obeys_from_spec() -> bool {
        true
    }

    closed spec fn from_spec(err: tokio::task::JoinError) -> FsTesterError {
        FsTesterError {
            code: ErrorCode::JoinError(err),
            line: 0,
            column: 0,
            sandbox_dir: None,
            cleanup_skipped: false,
        }
    }
}

impl From<FsTesterError> for std::io::Error {
    /// The I/O error that stands for an error of this library: the I/O
    /// error that caused it, where one did, and otherwise an error of the
    /// kind `InvalidData` that carries the text of the error.
    fn from(error: FsTesterError) -> (converted: std::io::Error)
        ensures
            match error.code() {
                ErrorCode::Io(err) => converted == err,
                _ => io_error_kind_of(converted) == std::io::ErrorKind::InvalidData,
            },
    {
        let message = match &error.code {
            ErrorCode::Io(_) => String::new(),
            _ => error.message(),
        };
        match error.code {
            ErrorCode::Io(err) => err,
            _ => invalid_data(message),
        }
    }
}

impl FromSpecImpl<FsTesterError> for std::io::Error {
    open spec fn obeys_from_spec() -> bool {
        false
    }

    closed spec fn from_spec(error: FsTesterError) -> std::io::Error {
        match error.code {
            ErrorCode::Io(err) => err,
            _ => arbitrary(),
        }
    }
}

} // verus!
