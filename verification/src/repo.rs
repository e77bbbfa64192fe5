//! The repository as the library sees it: the calls into `git2`, each
//! behind a small function, and the plain records that carry what they
//! return.
//!
//! What a repository holds is not known to the verifier. The functions here
//! promise nothing about their results unless their documentation says so;
//! the rules that turn the records into a status or a diff are proved in the
//! modules that use them.

use crate::error::CoreError;
use crate::path::is_repo_path;
use crate::text::nul_free;
use crate::types::HunkRange;
use vstd::prelude::*;

verus! {

#[verifier::external_type_specification]
#[verifier::external_body]
pub struct ExRepository(git2::Repository);

#[verifier::external_type_specification]
#[verifier::external_body]
pub struct ExGitError(git2::Error);

#[verifier::external_type_specification]
#[verifier::external_body]
pub struct ExStatuses<'repo>(git2::Statuses<'repo>);

#[verifier::external_type_specification]
#[verifier::external_body]
pub struct ExDiff<'repo>(git2::Diff<'repo>);

#[verifier::external_type_specification]
#[verifier::external_body]
pub struct ExReference<'repo>(git2::Reference<'repo>);

#[verifier::external_type_specification]
#[verifier::external_body]
pub struct ExTree<'repo>(git2::Tree<'repo>);

#[verifier::external_type_specification]
#[verifier::external_body]
pub struct ExTreeEntry<'tree>(git2::TreeEntry<'tree>);

#[verifier::external_type_specification]
#[verifier::external_body]
pub struct ExObject<'repo>(git2::Object<'repo>);

#[verifier::external_type_specification]
#[verifier::external_body]
pub struct ExBlob<'repo>(git2::Blob<'repo>);

#[verifier::external_type_specification]
#[verifier::external_body]
pub struct ExIndex(git2::Index);

#[verifier::external_type_specification]
#[verifier::external_body]
pub struct ExOid(git2::Oid);

/// What a status query takes into account.
#[derive(Debug, Clone, Copy, PartialEq, Eq, Structural)]
pub struct StatusQuery {
    pub include_untracked: bool,
    pub recurse_untracked_dirs: bool,
    pub include_ignored: bool,
    pub renames_head_to_index: bool,
    pub renames_index_to_workdir: bool,
}

/// The two paths of a change, undecoded, where the repository knows them.
#[derive(Debug, Clone, PartialEq, Eq)]
pub struct DeltaPaths {
    pub new_path: Option<Vec<u8>>,
    pub old_path: Option<Vec<u8>>,
}

pub struct DeltaPathsView {
    pub new_path: Option<Seq<u8>>,
    pub old_path: Option<Seq<u8>>,
}

impl View for DeltaPaths {
    type V = DeltaPathsView;

    open spec fn view(&self) -> DeltaPathsView {
        DeltaPathsView {
            new_path: self.new_path.deep_view(),
            old_path: self.old_path.deep_view(),
        }
    }
}

impl DeepView for DeltaPaths {
    type V = DeltaPathsView;

    open spec fn deep_view(&self) -> DeltaPathsView {
        self@
    }
}

/// What the repository reports of one path.
#[derive(Debug, Clone, PartialEq, Eq)]
pub struct StatusRecord {
    /// The path of the entry, where it is readable as text.
    pub path: Option<String>,
    /// The status bits of the entry.
    pub bits: u32,
    /// The change between the committed snapshot and the index.
    pub head_to_index: Option<DeltaPaths>,
    /// The change between the index and the working tree.
    pub index_to_workdir: Option<DeltaPaths>,
}

pub struct StatusRecordView {
    pub path: Option<Seq<char>>,
    pub bits: u32,
    pub head_to_index: Option<DeltaPathsView>,
    pub index_to_workdir: Option<DeltaPathsView>,
}

impl View for StatusRecord {
    type V = StatusRecordView;

    open spec fn view(&self) -> StatusRecordView {
        StatusRecordView {
            path: self.path.deep_view(),
            bits: self.bits,
            head_to_index: self.head_to_index.deep_view(),
            index_to_workdir: self.index_to_workdir.deep_view(),
        }
    }
}

impl DeepView for StatusRecord {
    type V = StatusRecordView;

    open spec fn deep_view(&self) -> StatusRecordView {
        self@
    }
}

/// The records that a status list holds, in its order.
pub uninterp spec fn status_list(statuses: git2::Statuses<'_>) -> Seq<StatusRecordView>;

/// The header of a hunk as the diff engine reports it.
#[derive(Debug, Clone, PartialEq, Eq)]
pub struct HunkHeader {
    pub range: HunkRange,
    /// The header line, undecoded.
    pub header: Vec<u8>,
}

pub struct HunkHeaderView {
    pub range: HunkRange,
    pub header: Seq<u8>,
}

impl View for HunkHeader {
    type V = HunkHeaderView;

    open spec fn view(&self) -> HunkHeaderView {
        HunkHeaderView { range: self.range, header: self.header@ }
    }
}

impl HunkHeader {
    /// A header from its four numbers and its line.
    pub fn new(old_start: u32, old_lines: u32, new_start: u32, new_lines: u32, header: Vec<u8>) -> (made:
        HunkHeader)
        ensures
            made.range == (HunkRange { old_start, old_lines, new_start, new_lines }),
            made.header == header,
    {
        HunkHeader { range: HunkRange { old_start, old_lines, new_start, new_lines }, header }
    }
}

impl DeepView for HunkHeader {
    type V = HunkHeaderView;

    open spec fn deep_view(&self) -> HunkHeaderView {
        self@
    }
}

/// One step of a patch: the file it belongs to, the hunk it belongs to if
/// any, and one line.
#[derive(Debug, Clone, PartialEq, Eq)]
pub struct DiffEvent {
    /// The path of the file on the new side, undecoded.
    pub new_path: Option<Vec<u8>>,
    /// The path of the file on the old side, undecoded.
    pub old_path: Option<Vec<u8>>,
    pub is_binary: bool,
    pub hunk: Option<HunkHeader>,
    /// The sigil of the line: a space for context, `+` for an addition, `-`
    /// for a deletion; `=`, `>` and `<` where a side lacks the line feed at
    /// the end of the file; `F` for a file header, `H` for a hunk header and
    /// `B` for a binary notice.
    pub origin: char,
    /// The line, undecoded.
    pub content: Vec<u8>,
    pub old_line_no: Option<u32>,
    pub new_line_no: Option<u32>,
}

pub struct DiffEventView {
    pub new_path: Option<Seq<u8>>,
    pub old_path: Option<Seq<u8>>,
    pub is_binary: bool,
    pub hunk: Option<HunkHeaderView>,
    pub origin: char,
    pub content: Seq<u8>,
    pub old_line_no: Option<u32>,
    pub new_line_no: Option<u32>,
}

impl View for DiffEvent {
    type V = DiffEventView;

    open spec fn view(&self) -> DiffEventView {
        DiffEventView {
            new_path: self.new_path.deep_view(),
            old_path: self.old_path.deep_view(),
            is_binary: self.is_binary,
            hunk: self.hunk.deep_view(),
            origin: self.origin,
            content: self.content@,
            old_line_no: self.old_line_no,
            new_line_no: self.new_line_no,
        }
    }
}

impl DeepView for DiffEvent {
    type V = DiffEventView;

    open spec fn deep_view(&self) -> DiffEventView {
        self@
    }
}

/// Opens the repository at `path`.
///
/// Trusted: calls `git2::Repository::open`. Nothing is claimed of the
/// result.
#[verifier::external_body]
fn repository_open(path: &str) -> (opened: Result<git2::Repository, git2::Error>) {
    git2::Repository::open(path)
}

/// Opens the repository at or above `path`.
///
/// Trusted: calls `git2::Repository::discover`. Nothing is claimed of the
/// result.
#[verifier::external_body]
fn repository_discover(path: &str) -> (found: Result<git2::Repository, git2::Error>) {
    git2::Repository::discover(path)
}

/// The message of a repository error.
///
/// Trusted: calls `git2::Error::message`. Nothing is claimed of the result.
#[verifier::external_body]
fn error_message(error: &git2::Error) -> (message: String) {
    error.message().to_owned()
}

/// The working directory of a repository, which a bare one lacks.
///
/// Trusted: calls `git2::Repository::workdir` and reads the path as text.
/// Nothing is claimed of the result.
#[verifier::external_body]
pub(crate) fn repository_workdir(repo: &git2::Repository) -> (workdir: Option<String>) {
    repo.workdir().map(|p| p.to_string_lossy().into_owned())
}

/// The status list of a repository.
///
/// Trusted: calls `git2::Repository::statuses` with options set from
/// `query`. Nothing is claimed of the result.
#[verifier::external_body]
pub(crate) fn repository_statuses<'a>(repo: &'a git2::Repository, query: StatusQuery) -> (statuses:
    Result<git2::Statuses<'a>, git2::Error>) {
    let mut opts = git2::StatusOptions::new();
    opts.include_untracked(query.include_untracked)
        .recurse_untracked_dirs(query.recurse_untracked_dirs)
        .include_ignored(query.include_ignored)
        .renames_head_to_index(query.renames_head_to_index)
        .renames_index_to_workdir(query.renames_index_to_workdir);
    repo.statuses(Some(&mut opts))
}

/// The number of records of a status list.
///
/// Trusted: calls `git2::Statuses::len`, the count of the entries of the
/// list.
#[verifier::external_body]
pub(crate) fn statuses_len(statuses: &git2::Statuses<'_>) -> (len: usize)
    ensures
        len == status_list(*statuses).len(),
{
    statuses.len()
}

/// The path of the record at `index`, where it is valid UTF-8.
///
/// Trusted: calls `git2::Statuses::get`, which gives the entry at an index
/// below the count of the list, and `git2::StatusEntry::path`. The result
/// is the path of that record in `status_list`.
#[verifier::external_body]
pub(crate) fn status_path(statuses: &git2::Statuses<'_>, index: usize) -> (path: Option<String>)
    ensures
        index < status_list(*statuses).len() ==> path.deep_view() == status_list(
            *statuses,
        )[index as int].path,
{
    statuses.get(index).and_then(|entry| entry.path().ok().map(String::from))
}

/// The status bits of the record at `index`.
///
/// Trusted: calls `git2::Statuses::get`, which gives the entry at an index
/// below the count of the list, `git2::StatusEntry::status` and
/// `git2::Status::bits`. The result holds the bits of that record in
/// `status_list`.
#[verifier::external_body]
pub(crate) fn status_bits(statuses: &git2::Statuses<'_>, index: usize) -> (bits: Option<u32>)
    ensures
        index < status_list(*statuses).len() ==> bits == Some(
            status_list(*statuses)[index as int].bits,
        ),
{
    statuses.get(index).map(|entry| entry.status().bits())
}

/// The paths of the change between the committed snapshot and the index in
/// the record at `index`.
///
/// Trusted: calls `git2::Statuses::get`, which gives the entry at an index
/// below the count of the list, `git2::StatusEntry::head_to_index`, and
/// `git2::DiffFile::path_bytes` on both files of the delta. The
/// result is that change of that record in `status_list`.
#[verifier::external_body]
pub(crate) fn status_head_to_index(statuses: &git2::Statuses<'_>, index: usize) -> (paths: Option<
    DeltaPaths,
>)
    ensures
        index < status_list(*statuses).len() ==> paths.deep_view() == status_list(
            *statuses,
        )[index as int].head_to_index,
{
    statuses.get(index).and_then(|entry| entry.head_to_index()).map(|delta| DeltaPaths {
        new_path: delta.new_file().path_bytes().map(|b| b.to_vec()),
        old_path: delta.old_file().path_bytes().map(|b| b.to_vec()),
    })
}

/// The paths of the change between the index and the working tree in the
/// record at `index`.
///
/// Trusted: calls `git2::Statuses::get`, which gives the entry at an index
/// below the count of the list, `git2::StatusEntry::index_to_workdir`, and
/// `git2::DiffFile::path_bytes` on both files of the delta. The
/// result is that change of that record in `status_list`.
#[verifier::external_body]
pub(crate) fn status_index_to_workdir(statuses: &git2::Statuses<'_>, index: usize) -> (paths: Option<
    DeltaPaths,
>)
    ensures
        index < status_list(*statuses).len() ==> paths.deep_view() == status_list(
            *statuses,
        )[index as int].index_to_workdir,
{
    statuses.get(index).and_then(|entry| entry.index_to_workdir()).map(|delta| DeltaPaths {
        new_path: delta.new_file().path_bytes().map(|b| b.to_vec()),
        old_path: delta.old_file().path_bytes().map(|b| b.to_vec()),
    })
}

/// What HEAD points at.
///
/// Trusted: calls `git2::Repository::head`. Nothing is claimed of the
/// result.
#[verifier::external_body]
pub(crate) fn repository_head<'a>(repo: &'a git2::Repository) -> (head: Result<
    git2::Reference<'a>,
    git2::Error,
>) {
    repo.head()
}

/// The tree that a reference leads to.
///
/// Trusted: calls `git2::Reference::peel_to_tree`. Nothing is claimed of
/// the result.
#[verifier::external_body]
pub(crate) fn reference_tree<'a>(reference: &git2::Reference<'a>) -> (tree: Result<
    git2::Tree<'a>,
    git2::Error,
>) {
    reference.peel_to_tree()
}

/// The entry of a tree at `file_path`.
///
/// Trusted: calls `git2::Tree::get_path`. Nothing is claimed of the result.
#[verifier::external_body]
pub(crate) fn tree_entry(tree: &git2::Tree<'_>, file_path: &str) -> (entry: Result<
    git2::TreeEntry<'static>,
    git2::Error,
>) {
    tree.get_path(std::path::Path::new(file_path))
}

/// The object that an entry of a tree points at.
///
/// Trusted: calls `git2::TreeEntry::to_object`. Nothing is claimed of the
/// result.
#[verifier::external_body]
pub(crate) fn entry_object<'a>(entry: &git2::TreeEntry<'_>, repo: &'a git2::Repository) -> (object:
    Result<git2::Object<'a>, git2::Error>) {
    entry.to_object(repo)
}

/// An object as a blob, if it is one.
///
/// Trusted: calls `git2::Object::into_blob`. Nothing is claimed of the
/// result.
#[verifier::external_body]
pub(crate) fn object_blob<'a>(object: git2::Object<'a>) -> (blob: Option<git2::Blob<'a>>) {
    object.into_blob().ok()
}

/// The bytes of a blob.
///
/// Trusted: calls `git2::Blob::content`. Nothing is claimed of the result.
#[verifier::external_body]
pub(crate) fn blob_content(blob: &git2::Blob<'_>) -> (bytes: Vec<u8>) {
    blob.content().to_vec()
}

/// The index of a repository.
///
/// Trusted: calls `git2::Repository::index`. Nothing is claimed of the
/// result.
#[verifier::external_body]
pub(crate) fn repository_index(repo: &git2::Repository) -> (index: Result<git2::Index, git2::Error>) {
    repo.index()
}

/// The id of the blob at `file_path` and `stage` in an index, if the index
/// has an entry there.
///
/// Trusted: calls `git2::Index::get_path` and picks the id of the entry.
/// `git2::Index::get_path` does not return for a path that holds NUL, is
/// empty, or begins at the root, with `.` or with `..`. Nothing is claimed
/// of the result.
#[verifier::external_body]
pub(crate) fn index_entry_id(index: &git2::Index, file_path: &str, stage: i32) -> (id: Option<
    git2::Oid,
>)
    requires
        is_repo_path(file_path@),
{
    index.get_path(std::path::Path::new(file_path), stage).map(|entry| entry.id)
}

/// The blob with the given id.
///
/// Trusted: calls `git2::Repository::find_blob`. Nothing is claimed of the
/// result.
#[verifier::external_body]
pub(crate) fn repository_blob<'a>(repo: &'a git2::Repository, id: git2::Oid) -> (blob: Result<
    git2::Blob<'a>,
    git2::Error,
>) {
    repo.find_blob(id)
}

/// The diff of `file_path` between a tree and the index. No tree stands for
/// the empty tree.
///
/// Trusted: calls `git2::Repository::diff_tree_to_index`, with the path and
/// the number of context lines as the diff's options.
/// `git2::DiffOptions::pathspec` does not return for a path that holds NUL.
/// Nothing is claimed of the result.
#[verifier::external_body]
pub(crate) fn diff_tree_to_index<'a>(
    repo: &'a git2::Repository,
    tree: Option<&git2::Tree<'_>>,
    file_path: &str,
    context_lines: u32,
) -> (diff: Result<git2::Diff<'a>, git2::Error>)
    requires
        nul_free(file_path@),
{
    let mut opts = git2::DiffOptions::new();
    opts.pathspec(file_path);
    opts.context_lines(context_lines);
    repo.diff_tree_to_index(tree, None, Some(&mut opts))
}

/// The diff of `file_path` between the index and the working tree.
///
/// Trusted: calls `git2::Repository::diff_index_to_workdir`, with the path
/// and the number of context lines as the diff's options.
/// `git2::DiffOptions::pathspec` does not return for a path that holds NUL.
/// Nothing is claimed of the result.
#[verifier::external_body]
pub(crate) fn diff_index_to_workdir<'a>(
    repo: &'a git2::Repository,
    file_path: &str,
    context_lines: u32,
) -> (diff: Result<git2::Diff<'a>, git2::Error>)
    requires
        nul_free(file_path@),
{
    let mut opts = git2::DiffOptions::new();
    opts.pathspec(file_path);
    opts.context_lines(context_lines);
    repo.diff_index_to_workdir(None, Some(&mut opts))
}

/// The steps of a diff printed as a patch, in the order the diff engine
/// gives them.
///
/// Trusted: calls `git2::Diff::print` with the patch format; the callback
/// records each step from the getters of `git2::DiffDelta`,
/// `git2::DiffHunk` and `git2::DiffLine`, and asks for the next. Nothing is
/// claimed of the result.
#[verifier::external_body]
pub(crate) fn diff_events(diff: &git2::Diff<'_>) -> (events: Result<Vec<DiffEvent>, git2::Error>) {
    let mut events = Vec::new();
    diff.print(git2::DiffFormat::Patch, |delta, hunk, line| {
        events.push(DiffEvent {
            new_path: delta.new_file().path_bytes().map(|b| b.to_vec()),
            old_path: delta.old_file().path_bytes().map(|b| b.to_vec()),
            is_binary: delta.flags().is_binary(),
            hunk: hunk.map(|h| HunkHeader::new(h.old_start(), h.old_lines(), h.new_start(), h.new_lines(), h.header().to_vec())),
            origin: line.origin(),
            content: line.content().to_vec(),
            old_line_no: line.old_lineno(),
            new_line_no: line.new_lineno(),
        });
        true
    })?;
    Ok(events)
}

/// The tree of the commit that HEAD points at, if there is one.
pub(crate) fn head_tree<'a>(repo: &'a git2::Repository) -> (tree: Option<git2::Tree<'a>>) {
    match repository_head(repo) {
        Ok(head) => match reference_tree(&head) {
            Ok(tree) => Some(tree),
            Err(_) => None,
        },
        Err(_) => None,
    }
}

/// The library's error for a failure of the repository: a failure of
/// version control, with the message that the repository gave.
pub(crate) fn git_error(error: &git2::Error) -> (e: CoreError)
    ensures
        e@ is VersionControl,
{
    CoreError::version_control(error_message(error))
}

/// What an attempt to open a repository comes to: the repository that was
/// opened, or a failure of version control.
pub fn opened_or_error(attempt: Result<git2::Repository, git2::Error>) -> (opened: Result<
    git2::Repository,
    CoreError,
>)
    ensures
        match attempt {
            Ok(repo) => opened == Ok::<git2::Repository, CoreError>(repo),
            Err(_) => opened matches Err(e) && e@ is VersionControl,
        },
{
    match attempt {
        Ok(repo) => Ok(repo),
        Err(e) => Err(git_error(&e)),
    }
}

/// Opens the repository at `path`.
pub fn open_repository(path: &str) -> (opened: Result<git2::Repository, CoreError>)
    ensures
        opened matches Err(e) ==> e@ is VersionControl,
{
    opened_or_error(repository_open(path))
}

/// Opens the repository at `path` or at the nearest directory above it that
/// holds one.
pub fn discover_repository(path: &str) -> (found: Result<git2::Repository, CoreError>)
    ensures
        found matches Err(e) ==> e@ is VersionControl,
{
    opened_or_error(repository_discover(path))
}

} // verus!
