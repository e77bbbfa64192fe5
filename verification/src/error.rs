//! The error type of the library.

use vstd::prelude::*;
use vstd::string::StringExecFns;

verus! {

/// Why an operation of the library failed.
#[derive(Debug, Clone, PartialEq, Eq)]
pub enum CoreError {
    /// The path is absolute, holds `..`, or leaves the repository.
    InvalidPath(String),
    /// The file system or a lock failed at `path`.
    Io { path: String, message: String },
    /// The repository could not be read.
    VersionControl(String),
    /// The stored comment file is malformed.
    Serialization(String),
}

pub enum CoreErrorView {
    InvalidPath(Seq<char>),
    Io { path: Seq<char>, message: Seq<char> },
    VersionControl(Seq<char>),
    Serialization(Seq<char>),
}

impl CoreErrorView {
    /// The text shown to a user for this error.
    pub open spec fn message(self) -> Seq<char> {
        match self {
            CoreErrorView::InvalidPath(reason) => "invalid path: "@ + reason,
            CoreErrorView::Io { path, message } => "IO error for '"@ + path + "': "@ + message,
            CoreErrorView::VersionControl(reason) => "git operation failed: "@ + reason,
            CoreErrorView::Serialization(reason) => "malformed comment file: "@ + reason,
        }
    }
}

impl View for CoreError {
    type V = CoreErrorView;

    open spec fn view(&self) -> CoreErrorView {
        match self {
            CoreError::InvalidPath(reason) => CoreErrorView::InvalidPath(reason@),
            CoreError::Io { path, message } => CoreErrorView::Io {
                path: path@,
                message: message@,
            },
            CoreError::VersionControl(reason) => CoreErrorView::VersionControl(reason@),
            CoreError::Serialization(reason) => CoreErrorView::Serialization(reason@),
        }
    }
}

impl CoreError {
    /// An I/O failure at `path`.
    pub fn io(path: &str, message: &str) -> (error: CoreError)
        ensures
            error@ == (CoreErrorView::Io { path: path@, message: message@ }),
    {
        CoreError::Io { path: path.to_owned(), message: message.to_owned() }
    }

    /// A failure of the repository, with the message that the repository
    /// gave for it.
    pub fn version_control(message: String) -> (error: CoreError)
        ensures
            error@ == CoreErrorView::VersionControl(message@),
    {
        CoreError::VersionControl(message)
    }

    /// The text shown to a user for this error.
    pub fn message(&self) -> (text: String)
        ensures
            text@ == self@.message(),
    {
        match self {
            CoreError::InvalidPath(reason) => {
                let mut text = "invalid path: ".to_owned();
                text.append(reason.as_str());
                text
            },
            CoreError::Io { path, message } => {
                let mut text = "IO error for '".to_owned();
                text.append(path.as_str());
                text.append("': ");
                text.append(message.as_str());
                text
            },
            CoreError::VersionControl(reason) => {
                let mut text = "git operation failed: ".to_owned();
                text.append(reason.as_str());
                text
            },
            CoreError::Serialization(reason) => {
                let mut text = "malformed comment file: ".to_owned();
                text.append(reason.as_str());
                text
            },
        }
    }
}

} // verus!
