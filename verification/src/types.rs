//! The data handed across the library's boundary, each with its
//! mathematical view.
//!
//! A view replaces every `String` by its `Seq<char>` and every `Vec` by a
//! `Seq` of views. Contracts speak of views only.

use vstd::prelude::*;

verus! {

/// How a path differs between two snapshots.
#[derive(Debug, Clone, Copy, PartialEq, Eq, Structural)]
pub enum FileEntryKind {
    Added,
    Modified,
    Deleted,
    Renamed,
    Untracked,
    Typechange,
    Conflicted,
}

/// One changed path of a status query.
#[derive(Debug, Clone, PartialEq, Eq)]
pub struct FileEntry {
    pub path: String,
    /// The path before a rename.
    pub old_path: Option<String>,
    pub kind: FileEntryKind,
}

pub struct FileEntryView {
    pub path: Seq<char>,
    pub old_path: Option<Seq<char>>,
    pub kind: FileEntryKind,
}

impl View for FileEntry {
    type V = FileEntryView;

    open spec fn view(&self) -> FileEntryView {
        FileEntryView {
            path: self.path@,
            old_path: self.old_path.deep_view(),
            kind: self.kind,
        }
    }
}

impl DeepView for FileEntry {
    type V = FileEntryView;

    open spec fn deep_view(&self) -> FileEntryView {
        self@
    }
}

/// The changed paths of a repository, by the comparison that shows them.
#[derive(Debug, Clone, PartialEq, Eq)]
pub struct GitStatus {
    /// Committed snapshot against the index.
    pub staged: Vec<FileEntry>,
    /// Index against the working tree.
    pub unstaged: Vec<FileEntry>,
    /// Files the index does not know.
    pub untracked: Vec<FileEntry>,
}

pub struct GitStatusView {
    pub staged: Seq<FileEntryView>,
    pub unstaged: Seq<FileEntryView>,
    pub untracked: Seq<FileEntryView>,
}

impl View for GitStatus {
    type V = GitStatusView;

    open spec fn view(&self) -> GitStatusView {
        GitStatusView {
            staged: self.staged.deep_view(),
            unstaged: self.unstaged.deep_view(),
            untracked: self.untracked.deep_view(),
        }
    }
}

/// What a line of a diff does.
#[derive(Debug, Clone, Copy, PartialEq, Eq, Structural)]
pub enum LineChangeType {
    Context,
    Addition,
    Deletion,
}

/// One line of a hunk.
#[derive(Debug, Clone, PartialEq, Eq)]
pub struct DiffLine {
    pub change_type: LineChangeType,
    pub content: String,
    pub old_line_no: Option<u32>,
    pub new_line_no: Option<u32>,
}

pub struct DiffLineView {
    pub change_type: LineChangeType,
    pub content: Seq<char>,
    pub old_line_no: Option<u32>,
    pub new_line_no: Option<u32>,
}

impl DiffLineView {
    /// An addition has no old line number, a deletion no new one, and a
    /// context line has both.
    pub open spec fn numbered_by_kind(self) -> bool {
        match self.change_type {
            LineChangeType::Addition => self.old_line_no is None,
            LineChangeType::Deletion => self.new_line_no is None,
            LineChangeType::Context => self.old_line_no is Some && self.new_line_no is Some,
        }
    }
}

impl View for DiffLine {
    type V = DiffLineView;

    open spec fn view(&self) -> DiffLineView {
        DiffLineView {
            change_type: self.change_type,
            content: self.content@,
            old_line_no: self.old_line_no,
            new_line_no: self.new_line_no,
        }
    }
}

impl DeepView for DiffLine {
    type V = DiffLineView;

    open spec fn deep_view(&self) -> DiffLineView {
        self@
    }
}

/// The four numbers of a hunk header: where the region starts and how long
/// it is, on the old side and on the new side.
#[derive(Debug, Clone, Copy, PartialEq, Eq, Structural)]
pub struct HunkRange {
    pub old_start: u32,
    pub old_lines: u32,
    pub new_start: u32,
    pub new_lines: u32,
}

/// A contiguous change region with the lines it holds.
#[derive(Debug, Clone, PartialEq, Eq)]
pub struct DiffHunk {
    pub old_start: u32,
    pub old_lines: u32,
    pub new_start: u32,
    pub new_lines: u32,
    pub header: String,
    pub lines: Vec<DiffLine>,
}

pub struct DiffHunkView {
    pub range: HunkRange,
    pub header: Seq<char>,
    pub lines: Seq<DiffLineView>,
}

impl DiffHunk {
    /// The header numbers of this hunk.
    pub open spec fn spec_range(&self) -> HunkRange {
        HunkRange {
            old_start: self.old_start,
            old_lines: self.old_lines,
            new_start: self.new_start,
            new_lines: self.new_lines,
        }
    }

    /// The header numbers of this hunk.
    pub fn range(&self) -> (range: HunkRange)
        ensures
            range == self.spec_range(),
    {
        HunkRange {
            old_start: self.old_start,
            old_lines: self.old_lines,
            new_start: self.new_start,
            new_lines: self.new_lines,
        }
    }
}

impl View for DiffHunk {
    type V = DiffHunkView;

    open spec fn view(&self) -> DiffHunkView {
        DiffHunkView {
            range: self.spec_range(),
            header: self.header@,
            lines: self.lines.deep_view(),
        }
    }
}

impl DeepView for DiffHunk {
    type V = DiffHunkView;

    open spec fn deep_view(&self) -> DiffHunkView {
        self@
    }
}

/// The diff of one file.
#[derive(Debug, Clone, PartialEq, Eq)]
pub struct FileDiff {
    pub path: String,
    /// The path before a rename.
    pub old_path: Option<String>,
    pub is_binary: bool,
    pub hunks: Vec<DiffHunk>,
}

pub struct FileDiffView {
    pub path: Seq<char>,
    pub old_path: Option<Seq<char>>,
    pub is_binary: bool,
    pub hunks: Seq<DiffHunkView>,
}

impl FileDiffView {
    /// A binary diff carries no hunks.
    pub open spec fn well_formed(self) -> bool {
        self.is_binary ==> self.hunks.len() == 0
    }
}

impl View for FileDiff {
    type V = FileDiffView;

    open spec fn view(&self) -> FileDiffView {
        FileDiffView {
            path: self.path@,
            old_path: self.old_path.deep_view(),
            is_binary: self.is_binary,
            hunks: self.hunks.deep_view(),
        }
    }
}

/// The hunks of a diff, or the fact that it is binary.
#[derive(Debug, Clone, PartialEq, Eq)]
pub enum DiffContent {
    Text { hunks: Vec<DiffHunk> },
    Binary,
}

pub enum DiffContentView {
    Text { hunks: Seq<DiffHunkView> },
    Binary,
}

impl View for DiffContent {
    type V = DiffContentView;

    open spec fn view(&self) -> DiffContentView {
        match self {
            DiffContent::Text { hunks } => DiffContentView::Text { hunks: hunks.deep_view() },
            DiffContent::Binary => DiffContentView::Binary,
        }
    }
}

impl FileDiffView {
    /// The content of this diff as one value.
    pub open spec fn content(self) -> DiffContentView {
        if self.is_binary {
            DiffContentView::Binary
        } else {
            DiffContentView::Text { hunks: self.hunks }
        }
    }
}

impl FileDiff {
    /// Gives up the diff for its content: the hunks of a text diff, or
    /// `Binary`.
    pub fn into_content(self) -> (content: DiffContent)
        ensures
            content@ == self@.content(),
    {
        if self.is_binary {
            DiffContent::Binary
        } else {
            DiffContent::Text { hunks: self.hunks }
        }
    }
}

/// Which two snapshots of the tree a diff compares.
#[derive(Debug, Clone, Copy, PartialEq, Eq, Structural)]
pub enum DiffTarget {
    /// The committed snapshot against the index.
    Staged,
    /// The index against the working tree.
    Unstaged,
}

/// One side of a file: its text, or its size when it is binary.
#[derive(Debug, Clone, PartialEq, Eq)]
pub enum FileContent {
    Text { contents: String },
    Binary { size: u64 },
}

pub enum FileContentView {
    Text { contents: Seq<char> },
    Binary { size: u64 },
}

impl View for FileContent {
    type V = FileContentView;

    open spec fn view(&self) -> FileContentView {
        match self {
            FileContent::Text { contents } => FileContentView::Text { contents: contents@ },
            FileContent::Binary { size } => FileContentView::Binary { size: *size },
        }
    }
}

impl DeepView for FileContent {
    type V = FileContentView;

    open spec fn deep_view(&self) -> FileContentView {
        self@
    }
}

/// One side of a diff, ready for display.
#[derive(Debug, Clone, PartialEq, Eq)]
pub struct DiffFile {
    pub name: String,
    pub lang: Option<String>,
    /// `None` where the file does not exist on this side.
    pub content: Option<FileContent>,
}

pub struct DiffFileView {
    pub name: Seq<char>,
    pub lang: Option<Seq<char>>,
    pub content: Option<FileContentView>,
}

impl View for DiffFile {
    type V = DiffFileView;

    open spec fn view(&self) -> DiffFileView {
        DiffFileView {
            name: self.name@,
            lang: self.lang.deep_view(),
            content: self.content.deep_view(),
        }
    }
}

/// Both sides of a file under one diff target.
#[derive(Debug, Clone, PartialEq, Eq)]
pub struct GitFileContents {
    pub old_file: DiffFile,
    pub new_file: DiffFile,
}

pub struct GitFileContentsView {
    pub old_file: DiffFileView,
    pub new_file: DiffFileView,
}

impl View for GitFileContents {
    type V = GitFileContentsView;

    open spec fn view(&self) -> GitFileContentsView {
        GitFileContentsView { old_file: self.old_file@, new_file: self.new_file@ }
    }
}

/// How a comment remembers its line.
#[derive(Debug, Clone, PartialEq, Eq)]
pub enum CommentAnchor {
    /// A fixed line that is never moved.
    Pinned { line: u32 },
    /// A line found by the three-line window around it.
    Anchored { line: u32, context: String },
    /// A line whose window is no longer in the file.
    Orphaned { last_known_line: u32, context: String },
}

pub enum CommentAnchorView {
    Pinned { line: u32 },
    Anchored { line: u32, context: Seq<char> },
    Orphaned { last_known_line: u32, context: Seq<char> },
}

impl CommentAnchorView {
    /// The line the anchor points at, or pointed at last.
    pub open spec fn line(self) -> u32 {
        match self {
            CommentAnchorView::Pinned { line } => line,
            CommentAnchorView::Anchored { line, .. } => line,
            CommentAnchorView::Orphaned { last_known_line, .. } => last_known_line,
        }
    }

    /// The stored window, which a pinned anchor lacks.
    pub open spec fn context(self) -> Option<Seq<char>> {
        match self {
            CommentAnchorView::Pinned { .. } => None,
            CommentAnchorView::Anchored { context, .. } => Some(context),
            CommentAnchorView::Orphaned { context, .. } => Some(context),
        }
    }

    pub open spec fn is_orphaned(self) -> bool {
        self is Orphaned
    }
}

impl View for CommentAnchor {
    type V = CommentAnchorView;

    open spec fn view(&self) -> CommentAnchorView {
        match self {
            CommentAnchor::Pinned { line } => CommentAnchorView::Pinned { line: *line },
            CommentAnchor::Anchored { line, context } => CommentAnchorView::Anchored {
                line: *line,
                context: context@,
            },
            CommentAnchor::Orphaned { last_known_line, context } => CommentAnchorView::Orphaned {
                last_known_line: *last_known_line,
                context: context@,
            },
        }
    }
}

impl CommentAnchor {
    /// The line the anchor points at, or pointed at last.
    #[must_use]
    pub fn line(&self) -> (line: u32)
        ensures
            line == self@.line(),
    {
        match self {
            CommentAnchor::Pinned { line } => *line,
            CommentAnchor::Anchored { line, .. } => *line,
            CommentAnchor::Orphaned { last_known_line, .. } => *last_known_line,
        }
    }

    /// The stored window, which a pinned anchor lacks.
    #[must_use]
    pub fn context(&self) -> (context: Option<&str>)
        ensures
            context.deep_view() == self@.context(),
    {
        match self {
            CommentAnchor::Pinned { .. } => None,
            CommentAnchor::Anchored { context, .. } => Some(context.as_str()),
            CommentAnchor::Orphaned { context, .. } => Some(context.as_str()),
        }
    }

    #[must_use]
    pub fn is_orphaned(&self) -> (orphaned: bool)
        ensures
            orphaned == self@.is_orphaned(),
    {
        match self {
            CommentAnchor::Orphaned { .. } => true,
            _ => false,
        }
    }
}

/// A note attached to a line of a file.
#[derive(Debug, Clone, PartialEq, Eq)]
pub struct Comment {
    /// Chosen by the caller; at most one comment of a collection has it.
    pub id: String,
    /// Relative to the repository root.
    pub file_path: String,
    pub anchor: CommentAnchor,
    pub body: String,
    pub resolved: bool,
    pub created_at: i64,
    pub updated_at: i64,
}

pub struct CommentView {
    pub id: Seq<char>,
    pub file_path: Seq<char>,
    pub anchor: CommentAnchorView,
    pub body: Seq<char>,
    pub resolved: bool,
    pub created_at: i64,
    pub updated_at: i64,
}

impl View for Comment {
    type V = CommentView;

    open spec fn view(&self) -> CommentView {
        CommentView {
            id: self.id@,
            file_path: self.file_path@,
            anchor: self.anchor@,
            body: self.body@,
            resolved: self.resolved,
            created_at: self.created_at,
            updated_at: self.updated_at,
        }
    }
}

impl DeepView for Comment {
    type V = CommentView;

    open spec fn deep_view(&self) -> CommentView {
        self@
    }
}

/// The comments of one repository, in the order they were first saved.
#[derive(Debug, Clone, PartialEq, Eq)]
pub struct CommentCollection {
    pub comments: Vec<Comment>,
}

impl View for CommentCollection {
    type V = Seq<CommentView>;

    open spec fn view(&self) -> Seq<CommentView> {
        self.comments.deep_view()
    }
}

impl Default for CommentCollection {
    fn default() -> (collection: CommentCollection)
        ensures
            collection@ == Seq::<CommentView>::empty(),
    {
        let collection = CommentCollection { comments: Vec::new() };
        assert(collection@ =~= Seq::<CommentView>::empty());
        collection
    }
}

/// A file read for side-by-side comparison.
#[derive(Debug, Clone, PartialEq, Eq)]
pub struct ReadFileResult {
    pub name: String,
    /// Empty for a binary file.
    pub contents: String,
    pub lang: Option<String>,
    pub is_binary: bool,
}

pub struct ReadFileResultView {
    pub name: Seq<char>,
    pub contents: Seq<char>,
    pub lang: Option<Seq<char>>,
    pub is_binary: bool,
}

impl View for ReadFileResult {
    type V = ReadFileResultView;

    open spec fn view(&self) -> ReadFileResultView {
        ReadFileResultView {
            name: self.name@,
            contents: self.contents@,
            lang: self.lang.deep_view(),
            is_binary: self.is_binary,
        }
    }
}

} // verus!
