//! The content of files: of both sides of a diff, and of a file read for
//! side-by-side comparison.
//!
//! Bytes that hold a NUL byte count as binary and are shown by their length.
//! Other bytes are read as UTF-8 text, with the replacement character where
//! they are not valid.

use crate::error::{CoreError, CoreErrorView};
use crate::lang::{extension_to_lang, language_of_path};
use crate::path::{
    can_name_entry, file_name, is_queryable, is_repo_path, is_safe_relative, nul_reason,
    path_file_name, unsafe_path_reason, validate_query_path,
};
use crate::repo::{
    blob_content, discover_repository, entry_object, git_error, head_tree, index_entry_id,
    object_blob, repository_blob, repository_index, repository_workdir, tree_entry,
};
use crate::text::{contains_nul, decimal, decimal_string, decode_utf8_lossy, has_nul, utf8_lossy};
use crate::types::{
    DiffFile, DiffFileView, DiffTarget, FileContent, FileContentView, GitFileContents,
    GitFileContentsView, ReadFileResult, ReadFileResultView,
};
use vstd::prelude::*;
use vstd::string::StringExecFns;

verus! {

/// The largest file, in bytes, that is read for comparison: 50 MiB.
pub const MAX_FILE_SIZE: u64 = 52_428_800;

/// The stage of the index at which a file stands that is in no conflict.
pub const MERGED_STAGE: i32 = 0;

/// The reason given when a repository without a working directory is asked
/// for the working tree.
pub open spec fn no_workdir_reason() -> Seq<char> {
    "Repository has no working directory"@
}

/// The reason given when a file is larger than `MAX_FILE_SIZE`.
pub open spec fn too_large_reason(size: u64) -> Seq<char> {
    "File too large: "@ + decimal(size as nat) + " bytes (max "@ + decimal(MAX_FILE_SIZE as nat)
        + " bytes)"@
}

/// The content that a byte buffer stands for.
pub open spec fn content_of(bytes: Seq<u8>) -> FileContentView {
    if has_nul(bytes) {
        FileContentView::Binary { size: bytes.len() as u64 }
    } else {
        FileContentView::Text { contents: utf8_lossy(bytes) }
    }
}

/// The content of a side of a diff, absent where the file is.
pub open spec fn content_of_side(bytes: Option<Seq<u8>>) -> Option<FileContentView> {
    match bytes {
        Some(b) => Some(content_of(b)),
        None => None,
    }
}

/// One side of a diff: the path asked for, its language, and the content of
/// the bytes found.
pub open spec fn side_of(file_path: Seq<char>, bytes: Option<Seq<u8>>) -> DiffFileView {
    DiffFileView {
        name: file_path,
        lang: language_of_path(file_path),
        content: content_of_side(bytes),
    }
}

/// Both sides of a diff, from the bytes found on each side.
pub open spec fn contents_of(
    file_path: Seq<char>,
    old: Option<Seq<u8>>,
    new: Option<Seq<u8>>,
) -> GitFileContentsView {
    GitFileContentsView { old_file: side_of(file_path, old), new_file: side_of(file_path, new) }
}

/// A file read for comparison, from its path and its bytes. A binary file
/// is given without its contents.
pub open spec fn file_read(file_path: Seq<char>, bytes: Seq<u8>) -> ReadFileResultView {
    ReadFileResultView {
        name: match file_name(file_path) {
            Some(name) => name,
            None => Seq::empty(),
        },
        contents: if has_nul(bytes) {
            Seq::empty()
        } else {
            utf8_lossy(bytes)
        },
        lang: language_of_path(file_path),
        is_binary: has_nul(bytes),
    }
}

/// The content that a byte buffer stands for.
pub fn bytes_to_content(bytes: &[u8]) -> (content: FileContent)
    ensures
        content@ == content_of(bytes@),
{
    if contains_nul(bytes) {
        FileContent::Binary { size: bytes.len() as u64 }
    } else {
        FileContent::Text { contents: decode_utf8_lossy(bytes) }
    }
}

/// The content of a side of a diff, absent where the file is.
pub fn blob_to_content(blob: Option<Vec<u8>>) -> (content: Option<FileContent>)
    ensures
        content.deep_view() == content_of_side(blob.deep_view()),
{
    match blob {
        Some(bytes) => {
            assert(bytes.deep_view() =~= bytes@);
            Some(bytes_to_content(bytes.as_slice()))
        },
        None => None,
    }
}

/// Both sides of a diff, from the bytes found on each side.
pub fn pair_contents(file_path: &str, old: Option<Vec<u8>>, new: Option<Vec<u8>>) -> (contents:
    GitFileContents)
    ensures
        contents@ == contents_of(file_path@, old.deep_view(), new.deep_view()),
{
    let lang = extension_to_lang(file_path);
    let new_lang = match &lang {
        Some(l) => Some(l.clone()),
        None => None,
    };
    GitFileContents {
        old_file: DiffFile { name: file_path.to_owned(), lang, content: blob_to_content(old) },
        new_file: DiffFile {
            name: file_path.to_owned(),
            lang: new_lang,
            content: blob_to_content(new),
        },
    }
}

/// The bytes of the file at `file_path` in the committed snapshot, if the
/// snapshot has that file. A path that cannot name an entry of a repository
/// has no file there, and a step that fails gives nothing.
fn head_side(repo: &git2::Repository, file_path: &str) -> (bytes: Option<Vec<u8>>)
    ensures
        bytes is Some ==> is_repo_path(file_path@),
{
    if !can_name_entry(file_path) {
        return None;
    }
    let tree = match head_tree(repo) {
        Some(tree) => tree,
        None => {
            return None;
        },
    };
    let entry = match tree_entry(&tree, file_path) {
        Ok(entry) => entry,
        Err(_) => {
            return None;
        },
    };
    let object = match entry_object(&entry, repo) {
        Ok(object) => object,
        Err(_) => {
            return None;
        },
    };
    match object_blob(object) {
        Some(blob) => Some(blob_content(&blob)),
        None => None,
    }
}

/// The bytes of the file at `file_path` in the index, if the index has that
/// file. A path that cannot name an entry of a repository has no file
/// there, and a blob that cannot be found gives nothing.
fn index_side(repo: &git2::Repository, file_path: &str) -> (bytes: Result<Option<Vec<u8>>, CoreError>)
    ensures
        bytes matches Ok(found) ==> (found is Some ==> is_repo_path(file_path@)),
        bytes matches Err(e) ==> e@ is VersionControl,
{
    let index = match repository_index(repo) {
        Ok(index) => index,
        Err(e) => {
            return Err(git_error(&e));
        },
    };
    if !can_name_entry(file_path) {
        return Ok(None);
    }
    match index_entry_id(&index, file_path, MERGED_STAGE) {
        Some(id) => match repository_blob(repo, id) {
            Ok(blob) => Ok(Some(blob_content(&blob))),
            Err(_) => Ok(None),
        },
        None => Ok(None),
    }
}

/// The contents of one file of an open repository on both sides of a diff.
///
/// Under `Staged` the old side is the file in the committed snapshot and the
/// new side the file in the index. Under `Unstaged` the old side is the file
/// in the index and the new side is `workdir_file`: the bytes that the
/// caller found in the working tree, or nothing where the file is not
/// there.
///
/// A path that is absolute, holds `..` or holds NUL is refused before the
/// repository is asked. A path that cannot name an entry of a repository,
/// such as the empty path or one that begins with `./`, has no file in the
/// committed snapshot and none in the index.
pub fn get_git_file_contents_with_repo(
    repo: &git2::Repository,
    file_path: &str,
    target: DiffTarget,
    workdir_file: Option<Vec<u8>>,
) -> (contents: Result<GitFileContents, CoreError>)
    ensures
        !is_queryable(file_path@) ==> contents is Err,
        contents matches Ok(c) ==> exists|old: Option<Seq<u8>>, new: Option<Seq<u8>>|
            {
                &&& c@ == contents_of(file_path@, old, new)
                &&& target == DiffTarget::Unstaged ==> new == workdir_file.deep_view()
            },
        contents matches Ok(c) ==> (!is_repo_path(file_path@) ==> c@ == contents_of(
            file_path@,
            None,
            if target == DiffTarget::Unstaged {
                workdir_file.deep_view()
            } else {
                None
            },
        )),
        contents matches Err(e) ==> if !is_safe_relative(file_path@) {
            e@ == CoreErrorView::InvalidPath(unsafe_path_reason())
        } else if !is_queryable(file_path@) {
            e@ == CoreErrorView::InvalidPath(nul_reason())
        } else {
            e@ is VersionControl || (target == DiffTarget::Unstaged && e@
                == CoreErrorView::InvalidPath(no_workdir_reason()))
        },
{
    match validate_query_path(file_path) {
        Err(e) => {
            return Err(e);
        },
        Ok(()) => {},
    }
    match target {
        DiffTarget::Staged => {
            let old = head_side(repo, file_path);
            let new = match index_side(repo, file_path) {
                Ok(bytes) => bytes,
                Err(e) => {
                    return Err(e);
                },
            };
            let ghost old_bytes = old.deep_view();
            let ghost new_bytes = new.deep_view();
            let contents = pair_contents(file_path, old, new);
            assert(contents@ == contents_of(file_path@, old_bytes, new_bytes));
            Ok(contents)
        },
        DiffTarget::Unstaged => {
            if repository_workdir(repo).is_none() {
                return Err(CoreError::InvalidPath("Repository has no working directory".to_owned()));
            }
            let old = match index_side(repo, file_path) {
                Ok(bytes) => bytes,
                Err(e) => {
                    return Err(e);
                },
            };
            let ghost old_bytes = old.deep_view();
            let ghost new_bytes = workdir_file.deep_view();
            let contents = pair_contents(file_path, old, workdir_file);
            assert(contents@ == contents_of(file_path@, old_bytes, new_bytes));
            Ok(contents)
        },
    }
}

/// The contents of one file of the repository at or above `repo_path` on
/// both sides of a diff. See `get_git_file_contents_with_repo`.
pub fn get_git_file_contents(
    repo_path: &str,
    file_path: &str,
    target: DiffTarget,
    workdir_file: Option<Vec<u8>>,
) -> (contents: Result<GitFileContents, CoreError>)
    ensures
        !is_queryable(file_path@) ==> contents is Err,
        contents matches Ok(c) ==> exists|old: Option<Seq<u8>>, new: Option<Seq<u8>>|
            {
                &&& c@ == contents_of(file_path@, old, new)
                &&& target == DiffTarget::Unstaged ==> new == workdir_file.deep_view()
            },
        contents matches Ok(c) ==> (!is_repo_path(file_path@) ==> c@ == contents_of(
            file_path@,
            None,
            if target == DiffTarget::Unstaged {
                workdir_file.deep_view()
            } else {
                None
            },
        )),
        contents matches Err(e) ==> if !is_safe_relative(file_path@) {
            e@ == CoreErrorView::InvalidPath(unsafe_path_reason())
        } else if !is_queryable(file_path@) {
            e@ == CoreErrorView::InvalidPath(nul_reason())
        } else {
            e@ is VersionControl || (target == DiffTarget::Unstaged && e@
                == CoreErrorView::InvalidPath(no_workdir_reason()))
        },
{
    match validate_query_path(file_path) {
        Err(e) => {
            return Err(e);
        },
        Ok(()) => {},
    }
    let repo = match discover_repository(repo_path) {
        Ok(repo) => repo,
        Err(e) => {
            return Err(e);
        },
    };
    get_git_file_contents_with_repo(&repo, file_path, target, workdir_file)
}

/// What the working directory that a repository reports comes to: that
/// directory, or the refusal of a repository that reports none.
pub fn workdir_or_error(reported: Option<String>) -> (workdir: Result<String, CoreError>)
    ensures
        match reported {
            Some(path) => workdir == Ok::<String, CoreError>(path),
            None => workdir matches Err(e) && e@ == CoreErrorView::InvalidPath(no_workdir_reason()),
        },
{
    match reported {
        Some(path) => Ok(path),
        None => Err(CoreError::InvalidPath("Repository has no working directory".to_owned())),
    }
}

/// The working directory of the repository, which a bare one lacks.
pub fn workdir_of(repo: &git2::Repository) -> (workdir: Result<String, CoreError>)
    ensures
        workdir matches Err(e) ==> e@ == CoreErrorView::InvalidPath(no_workdir_reason()),
{
    workdir_or_error(repository_workdir(repo))
}

/// Accepts a file of at most `MAX_FILE_SIZE` bytes and refuses a larger
/// one.
pub fn check_file_size(file_path: &str, size: u64) -> (checked: Result<(), CoreError>)
    ensures
        checked is Ok <==> size <= MAX_FILE_SIZE,
        checked matches Err(e) ==> e@ == (CoreErrorView::Io {
            path: file_path@,
            message: too_large_reason(size),
        }),
{
    if size > MAX_FILE_SIZE {
        let mut message = "File too large: ".to_owned();
        message.append(decimal_string(size).as_str());
        message.append(" bytes (max ");
        message.append(decimal_string(MAX_FILE_SIZE).as_str());
        message.append(" bytes)");
        Err(CoreError::Io { path: file_path.to_owned(), message })
    } else {
        Ok(())
    }
}

/// A file read for comparison, from its path and the bytes found there. A
/// file of more than `MAX_FILE_SIZE` bytes is refused.
pub fn read_file(file_path: &str, bytes: &[u8]) -> (read: Result<ReadFileResult, CoreError>)
    ensures
        read is Ok <==> bytes@.len() <= MAX_FILE_SIZE,
        read matches Ok(r) ==> r@ == file_read(file_path@, bytes@),
        read matches Err(e) ==> e@ == (CoreErrorView::Io {
            path: file_path@,
            message: too_large_reason(bytes@.len() as u64),
        }),
{
    match check_file_size(file_path, bytes.len() as u64) {
        Err(e) => {
            return Err(e);
        },
        Ok(()) => {},
    }
    let is_binary = contains_nul(bytes);
    let contents = if is_binary {
        String::new()
    } else {
        decode_utf8_lossy(bytes)
    };
    let name = match path_file_name(file_path) {
        Some(name) => name,
        None => String::new(),
    };
    Ok(ReadFileResult { name, contents, lang: extension_to_lang(file_path), is_binary })
}

} // verus!
