//! What the viewer shows, told from the paths it is started with, and the
//! errors that cross from the library to a user interface.

use crate::error::{CoreError, CoreErrorView};
use crate::path::{is_safe_relative, validate_file_path};
use crate::repo::discover_repository;
use crate::text::{decimal, decimal_string, str_eq};
use vstd::prelude::*;
use vstd::string::StringExecFns;

verus! {

/// The paths that the viewer is started with, each resolved to its
/// canonical form.
#[derive(Debug, Clone, PartialEq, Eq)]
pub struct Args {
    pub paths: Vec<String>,
}

/// What the viewer shows.
#[derive(Debug, Clone, PartialEq, Eq)]
pub enum AppMode {
    /// A welcome screen.
    Empty,
    /// The changes of the repository at `path`.
    Git { path: String },
    /// Two files side by side.
    File { file_a: String, file_b: String },
}

pub enum AppModeView {
    Empty,
    Git { path: Seq<char> },
    File { file_a: Seq<char>, file_b: Seq<char> },
}

impl View for AppMode {
    type V = AppModeView;

    open spec fn view(&self) -> AppModeView {
        match self {
            AppMode::Empty => AppModeView::Empty,
            AppMode::Git { path } => AppModeView::Git { path: path@ },
            AppMode::File { file_a, file_b } => AppModeView::File {
                file_a: file_a@,
                file_b: file_b@,
            },
        }
    }
}

/// Why the viewer could not start.
#[derive(Debug, Clone, PartialEq, Eq)]
pub enum AppError {
    /// The path could not be resolved.
    PathError { path: String, message: String },
    /// The path is not valid UTF-8.
    InvalidUtf8(String),
    Core(CoreError),
    /// More than two paths were given.
    InvalidArgCount(usize),
}

pub enum AppErrorView {
    PathError { path: Seq<char>, message: Seq<char> },
    InvalidUtf8(Seq<char>),
    Core(CoreErrorView),
    InvalidArgCount(usize),
}

impl AppErrorView {
    /// The text shown to a user for this error.
    pub open spec fn message(self) -> Seq<char> {
        match self {
            AppErrorView::PathError { path, message } => "Cannot access path '"@ + path + "': "@
                + message,
            AppErrorView::InvalidUtf8(path) => "Path contains invalid UTF-8: "@ + path,
            AppErrorView::Core(e) => "Core error: "@ + e.message(),
            AppErrorView::InvalidArgCount(n) => "Expected 0, 1, or 2 paths, got "@ + decimal(
                n as nat,
            ),
        }
    }
}

impl View for AppError {
    type V = AppErrorView;

    open spec fn view(&self) -> AppErrorView {
        match self {
            AppError::PathError { path, message } => AppErrorView::PathError {
                path: path@,
                message: message@,
            },
            AppError::InvalidUtf8(path) => AppErrorView::InvalidUtf8(path@),
            AppError::Core(e) => AppErrorView::Core(e@),
            AppError::InvalidArgCount(n) => AppErrorView::InvalidArgCount(*n),
        }
    }
}

impl AppError {
    /// The text shown to a user for this error.
    pub fn message(&self) -> (text: String)
        ensures
            text@ == self@.message(),
    {
        match self {
            AppError::PathError { path, message } => {
                let mut text = "Cannot access path '".to_owned();
                text.append(path.as_str());
                text.append("': ");
                text.append(message.as_str());
                text
            },
            AppError::InvalidUtf8(path) => {
                let mut text = "Path contains invalid UTF-8: ".to_owned();
                text.append(path.as_str());
                text
            },
            AppError::Core(e) => {
                let mut text = "Core error: ".to_owned();
                text.append(e.message().as_str());
                text
            },
            AppError::InvalidArgCount(n) => {
                let mut text = "Expected 0, 1, or 2 paths, got ".to_owned();
                text.append(decimal_string(*n as u64).as_str());
                text
            },
        }
    }
}

/// An error in the form that a user interface receives.
#[derive(Debug, Clone, PartialEq, Eq)]
pub enum CommandError {
    Path { path: String, message: String },
    InvalidUtf8 { path: String },
    Git { path: String, message: String },
}

pub enum CommandErrorView {
    Path { path: Seq<char>, message: Seq<char> },
    InvalidUtf8 { path: Seq<char> },
    Git { path: Seq<char>, message: Seq<char> },
}

impl View for CommandError {
    type V = CommandErrorView;

    open spec fn view(&self) -> CommandErrorView {
        match self {
            CommandError::Path { path, message } => CommandErrorView::Path {
                path: path@,
                message: message@,
            },
            CommandError::InvalidUtf8 { path } => CommandErrorView::InvalidUtf8 { path: path@ },
            CommandError::Git { path, message } => CommandErrorView::Git {
                path: path@,
                message: message@,
            },
        }
    }
}

/// The form in which an error of the library reaches a user interface.
pub open spec fn command_error_of_core(e: CoreErrorView) -> CommandErrorView {
    match e {
        CoreErrorView::VersionControl(_) => CommandErrorView::Git {
            path: Seq::empty(),
            message: e.message(),
        },
        CoreErrorView::Io { path, .. } => CommandErrorView::Path { path, message: e.message() },
        CoreErrorView::InvalidPath(reason) => CommandErrorView::Path {
            path: Seq::empty(),
            message: reason,
        },
        CoreErrorView::Serialization(_) => CommandErrorView::Path {
            path: Seq::empty(),
            message: e.message(),
        },
    }
}

/// The form in which a start-up error reaches a user interface.
pub open spec fn command_error_of_app(e: AppErrorView) -> CommandErrorView {
    match e {
        AppErrorView::PathError { path, message } => CommandErrorView::Path { path, message },
        AppErrorView::InvalidUtf8(path) => CommandErrorView::InvalidUtf8 { path },
        AppErrorView::Core(core) => CommandErrorView::Git {
            path: Seq::empty(),
            message: core.message(),
        },
        AppErrorView::InvalidArgCount(_) => CommandErrorView::Path {
            path: Seq::empty(),
            message: "Invalid argument count"@,
        },
    }
}

impl From<CoreError> for CommandError {
    fn from(err: CoreError) -> (out: CommandError)
        ensures
            out@ == command_error_of_core(err@),
    {
        let text = err.message();
        match err {
            CoreError::InvalidPath(reason) => CommandError::Path {
                path: String::new(),
                message: reason,
            },
            CoreError::Io { path, .. } => CommandError::Path { path, message: text },
            CoreError::VersionControl(_) => CommandError::Git {
                path: String::new(),
                message: text,
            },
            CoreError::Serialization(_) => CommandError::Path {
                path: String::new(),
                message: text,
            },
        }
    }
}

impl vstd::std_specs::convert::FromSpecImpl<CoreError> for CommandError {
    open spec fn obeys_from_spec() -> bool {
        false
    }

    open spec fn from_spec(err: CoreError) -> CommandError {
        arbitrary()
    }
}

impl From<AppError> for CommandError {
    fn from(err: AppError) -> (out: CommandError)
        ensures
            out@ == command_error_of_app(err@),
    {
        match err {
            AppError::PathError { path, message } => CommandError::Path { path, message },
            AppError::InvalidUtf8(path) => CommandError::InvalidUtf8 { path },
            AppError::Core(e) => CommandError::Git { path: String::new(), message: e.message() },
            AppError::InvalidArgCount(_) => CommandError::Path {
                path: String::new(),
                message: "Invalid argument count".to_owned(),
            },
        }
    }
}

impl vstd::std_specs::convert::FromSpecImpl<AppError> for CommandError {
    open spec fn obeys_from_spec() -> bool {
        false
    }

    open spec fn from_spec(err: AppError) -> CommandError {
        arbitrary()
    }
}

/// What the viewer shows for the given paths: nothing for none, a
/// repository for one, two files for two. More than two paths are refused.
/// With one path, the repository at or above it is looked for, and the
/// failure to find one is the error.
pub fn parse_app_mode_from_args(args: Args) -> (mode: Result<AppMode, AppError>)
    ensures
        args.paths@.len() == 0 ==> (mode matches Ok(m) && m@ == AppModeView::Empty),
        args.paths@.len() == 1 ==> match mode {
            Ok(m) => m@ == (AppModeView::Git { path: args.paths@[0]@ }),
            Err(e) => e@ matches AppErrorView::Core(core) && core is VersionControl,
        },
        args.paths@.len() == 2 ==> (mode matches Ok(m) && m@ == (AppModeView::File {
            file_a: args.paths@[0]@,
            file_b: args.paths@[1]@,
        })),
        args.paths@.len() > 2 ==> (mode matches Err(e) && e@ == AppErrorView::InvalidArgCount(
            args.paths@.len() as usize,
        )),
{
    let mut paths = args.paths;
    let count: usize = paths.len();
    if count == 0 {
        Ok(AppMode::Empty)
    } else if count == 1 {
        let path = paths.pop().unwrap();
        match discover_repository(path.as_str()) {
            Ok(_) => Ok(AppMode::Git { path }),
            Err(e) => Err(AppError::Core(e)),
        }
    } else if count == 2 {
        let file_b = paths.pop().unwrap();
        let file_a = paths.pop().unwrap();
        Ok(AppMode::File { file_a, file_b })
    } else {
        Err(AppError::InvalidArgCount(count))
    }
}

/// The reason given when a file is asked for outside the comparison of two
/// files.
pub open spec fn wrong_mode_reason() -> Seq<char> {
    "read_file is only available in file comparison mode"@
}

/// The reason given when a file is asked for that is not one of the two
/// compared.
pub open spec fn denied_reason() -> Seq<char> {
    "Access denied: path not in allowed file list"@
}

/// Whether the file at `file_path` may be read in the given mode: only
/// when two files are compared, and only if it is one of the two.
pub open spec fn may_read(mode: AppModeView, file_path: Seq<char>) -> bool {
    mode matches AppModeView::File { file_a, file_b } && (file_path == file_a || file_path
        == file_b)
}

/// Accepts a request to read the file at `file_path` where the mode allows
/// it, and refuses it otherwise.
pub fn check_read_allowed(mode: &AppMode, file_path: &str) -> (checked: Result<(), CommandError>)
    ensures
        checked is Ok <==> may_read(mode@, file_path@),
        checked matches Err(e) ==> e@ == (CommandErrorView::Path {
            path: file_path@,
            message: if mode@ is File {
                denied_reason()
            } else {
                wrong_mode_reason()
            },
        }),
{
    match mode {
        AppMode::File { file_a, file_b } => {
            if str_eq(file_path, file_a.as_str()) || str_eq(file_path, file_b.as_str()) {
                Ok(())
            } else {
                Err(
                    CommandError::Path {
                        path: file_path.to_owned(),
                        message: "Access denied: path not in allowed file list".to_owned(),
                    },
                )
            }
        },
        _ => Err(
            CommandError::Path {
                path: file_path.to_owned(),
                message: "read_file is only available in file comparison mode".to_owned(),
            },
        ),
    }
}

/// Accepts a path for a diff request where it is relative and free of
/// `..`, and refuses it otherwise.
pub fn check_diff_path(file_path: &str) -> (checked: Result<(), CommandError>)
    ensures
        checked is Ok <==> is_safe_relative(file_path@),
        checked matches Err(e) ==> e@ == (CommandErrorView::Git {
            path: file_path@,
            message: "Invalid file path"@,
        }),
{
    match validate_file_path(file_path) {
        Ok(()) => Ok(()),
        Err(_) => Err(
            CommandError::Git {
                path: file_path.to_owned(),
                message: "Invalid file path".to_owned(),
            },
        ),
    }
}

} // verus!
