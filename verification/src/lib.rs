//! The core of a small diff viewer: repository status and diff extraction,
//! and a store of line comments that follow their line as a file changes.

pub mod anchor;
pub mod app_mode;
pub mod comments;
pub mod contents;
pub mod diff;
pub mod error;
pub mod lang;
pub mod path;
pub mod repo;
pub mod status;
pub mod text;
pub mod types;

pub use anchor::{build_context_window, extract_context_window, re_anchor_comment};
pub use app_mode::{parse_app_mode_from_args, AppError, AppMode, Args, CommandError};
pub use comments::{comments_file_path, delete_comment, get_comments_for_file, save_comment};
pub use contents::{
    blob_to_content, bytes_to_content, get_git_file_contents, get_git_file_contents_with_repo,
    read_file,
};
pub use diff::{build_file_diff, get_file_diff, get_file_diff_with_repo, DiffHunkBuilder};
pub use error::CoreError;
pub use lang::extension_to_lang;
pub use path::validate_file_path;
pub use repo::{discover_repository, open_repository};
pub use status::{build_status, get_status, get_status_with_repo, status_to_file_status};
pub use types::{
    Comment, CommentAnchor, CommentCollection, DiffContent, DiffFile, DiffHunk, DiffLine,
    DiffTarget, FileContent, FileDiff, FileEntry, FileEntryKind, GitFileContents, GitStatus,
    LineChangeType, ReadFileResult,
};
