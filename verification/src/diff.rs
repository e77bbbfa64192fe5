//! The diff of one file, built from the steps of a patch.
//!
//! The diff engine prints a patch step by step. Each step names the file,
//! the hunk it belongs to if any, and one line. The builder keeps the path of
//! the file, opens a hunk whenever a step brings header numbers other than
//! those of the hunk that is open, and adds each line to the open hunk.

use crate::error::{CoreError, CoreErrorView};
use crate::path::{is_queryable, is_safe_relative, nul_reason, unsafe_path_reason, validate_query_path};
use crate::repo::{
    diff_events, diff_index_to_workdir, diff_tree_to_index, discover_repository, git_error,
    head_tree, DiffEvent, DiffEventView,
};
use crate::text::{
    decode_utf8_lossy, str_eq, trim_end, trim_trailing_newlines, utf8_lossy,
    without_trailing_newlines, without_trailing_whitespace,
};
use crate::types::{
    DiffHunk, DiffHunkView, DiffLine, DiffLineView, DiffTarget, FileDiff, FileDiffView, HunkRange,
    LineChangeType,
};
use vstd::prelude::*;

verus! {

/// The number of unchanged lines shown around a change.
pub const CONTEXT_LINES: u32 = 5;

/// What a patch line with the given sigil counts as in a hunk. The markers
/// for a missing line feed at the end of a file count as context; headers,
/// binary notices and unknown sigils are no lines of a hunk.
pub open spec fn line_kind(origin: char) -> Option<LineChangeType> {
    if origin == ' ' {
        Some(LineChangeType::Context)
    } else if origin == '+' {
        Some(LineChangeType::Addition)
    } else if origin == '-' {
        Some(LineChangeType::Deletion)
    } else if origin == '=' || origin == '>' || origin == '<' {
        Some(LineChangeType::Context)
    } else {
        None
    }
}

/// The header of a hunk as text: decoded, without the white space at its
/// end.
pub open spec fn header_text(bytes: Seq<u8>) -> Seq<char> {
    without_trailing_whitespace(utf8_lossy(bytes))
}

/// A line of a hunk as text: decoded, without the line feeds at its end.
pub open spec fn line_text(bytes: Seq<u8>) -> Seq<char> {
    without_trailing_newlines(utf8_lossy(bytes))
}

/// Whether a step opens a hunk: it brings a header, and no hunk is open or
/// the open hunk has other numbers.
pub open spec fn opens_hunk(hunks: Seq<DiffHunkView>, event: DiffEventView) -> bool {
    event.hunk matches Some(header) && (hunks.len() == 0 || hunks.last().range != header.range)
}

/// The hunks after the header of a step is taken in.
pub open spec fn with_header(hunks: Seq<DiffHunkView>, event: DiffEventView) -> Seq<DiffHunkView> {
    if opens_hunk(hunks, event) {
        hunks.push(
            DiffHunkView {
                range: event.hunk->0.range,
                header: header_text(event.hunk->0.header),
                lines: Seq::empty(),
            },
        )
    } else {
        hunks
    }
}

/// The line that a step adds to the open hunk, if it is a line of a hunk.
pub open spec fn line_of(event: DiffEventView) -> Option<DiffLineView> {
    match line_kind(event.origin) {
        Some(kind) => Some(
            DiffLineView {
                change_type: kind,
                content: line_text(event.content),
                old_line_no: event.old_line_no,
                new_line_no: event.new_line_no,
            },
        ),
        None => None,
    }
}

/// The hunks after the line of a step is taken in: it goes to the end of
/// the last hunk, and is dropped where there is no hunk.
pub open spec fn with_line(hunks: Seq<DiffHunkView>, event: DiffEventView) -> Seq<DiffHunkView> {
    match line_of(event) {
        Some(line) => if hunks.len() > 0 {
            hunks.update(
                hunks.len() - 1,
                DiffHunkView { lines: hunks.last().lines.push(line), ..hunks.last() },
            )
        } else {
            hunks
        },
        None => hunks,
    }
}

/// The path of the file after a step: the new path of the step, or else its
/// old path, or else the path so far. The paths of a step are read as text.
pub open spec fn path_after(path: Seq<char>, event: DiffEventView) -> Seq<char> {
    match event.new_path {
        Some(p) => utf8_lossy(p),
        None => match event.old_path {
            Some(p) => utf8_lossy(p),
            None => path,
        },
    }
}

/// The earlier path of the file after a step: the old path of the step
/// where it differs from the file's path, or else the earlier path so far.
pub open spec fn old_path_after(state: FileDiffView, event: DiffEventView) -> Option<Seq<char>> {
    match event.old_path {
        Some(p) => if utf8_lossy(p) != path_after(state.path, event) {
            Some(utf8_lossy(p))
        } else {
            state.old_path
        },
        None => state.old_path,
    }
}

/// The builder's state after one step.
pub open spec fn fed(state: FileDiffView, event: DiffEventView) -> FileDiffView {
    FileDiffView {
        path: path_after(state.path, event),
        old_path: old_path_after(state, event),
        is_binary: state.is_binary || event.is_binary,
        hunks: with_line(with_header(state.hunks, event), event),
    }
}

/// The builder's state after a sequence of steps.
pub open spec fn fed_all(state: FileDiffView, events: Seq<DiffEventView>) -> FileDiffView
    decreases events.len(),
{
    if events.len() == 0 {
        state
    } else {
        fed(fed_all(state, events.drop_last()), events.last())
    }
}

/// The builder's state before the first step.
pub open spec fn started(file_path: Seq<char>) -> FileDiffView {
    FileDiffView { path: file_path, old_path: None, is_binary: false, hunks: Seq::empty() }
}

/// The diff that a state stands for: a binary diff has no hunks.
pub open spec fn finished(state: FileDiffView) -> FileDiffView {
    if state.is_binary {
        FileDiffView { hunks: Seq::empty(), ..state }
    } else {
        state
    }
}

/// The diff of the file asked for as `file_path`, from the steps of its
/// patch.
pub open spec fn diff_of(file_path: Seq<char>, events: Seq<DiffEventView>) -> FileDiffView {
    finished(fed_all(started(file_path), events))
}

/// The header numbers that a sequence of steps brings, in order.
pub open spec fn header_ranges(events: Seq<DiffEventView>) -> Seq<HunkRange> {
    events.filter_map(
        |e: DiffEventView|
            match e.hunk {
                Some(header) => Some(header.range),
                None => None,
            },
    )
}

/// A sequence of header numbers with each run of equal neighbours taken as
/// one.
pub open spec fn runs(ranges: Seq<HunkRange>) -> Seq<HunkRange>
    decreases ranges.len(),
{
    if ranges.len() == 0 {
        Seq::empty()
    } else if ranges.len() >= 2 && ranges[ranges.len() - 2] == ranges.last() {
        runs(ranges.drop_last())
    } else {
        runs(ranges.drop_last()).push(ranges.last())
    }
}

/// The header numbers of a sequence of hunks.
pub open spec fn ranges_of(hunks: Seq<DiffHunkView>) -> Seq<HunkRange> {
    hunks.map_values(|h: DiffHunkView| h.range)
}

/// Runs end as the sequence ends, and neighbouring runs differ.
pub proof fn lemma_runs(ranges: Seq<HunkRange>)
    ensures
        runs(ranges).len() == 0 <==> ranges.len() == 0,
        ranges.len() > 0 ==> runs(ranges).last() == ranges.last(),
        forall|j: int|
            0 <= j < runs(ranges).len() - 1 ==> (#[trigger] runs(ranges)[j]) != runs(ranges)[j + 1],
    decreases ranges.len(),
{
    if ranges.len() > 0 {
        lemma_runs(ranges.drop_last());
    }
}

/// The builder never merges two regions whose header numbers differ and
/// never splits a region whose steps bring the same header numbers: the
/// hunks it holds are the runs of the header numbers that the steps brought,
/// one hunk for each run, so that neighbouring hunks differ in their numbers.
pub proof fn lemma_hunks_follow_headers(file_path: Seq<char>, events: Seq<DiffEventView>)
    ensures
        ranges_of(fed_all(started(file_path), events).hunks) == runs(header_ranges(events)),
        forall|j: int|
            0 <= j < fed_all(started(file_path), events).hunks.len() - 1 ==> (#[trigger] fed_all(
                started(file_path),
                events,
            ).hunks[j]).range != fed_all(started(file_path), events).hunks[j + 1].range,
    decreases events.len(),
{
    let hunks = fed_all(started(file_path), events).hunks;
    if events.len() == 0 {
        assert(ranges_of(hunks) =~= runs(header_ranges(events)));
    } else {
        let before = events.drop_last();
        let event = events.last();
        let prior = fed_all(started(file_path), before).hunks;
        lemma_hunks_follow_headers(file_path, before);
        lemma_runs(header_ranges(before));
        let opened = with_header(prior, event);
        assert(hunks == with_line(opened, event));
        assert(ranges_of(hunks) =~= ranges_of(opened));
        match event.hunk {
            Some(header) => {
                assert(header_ranges(events) == header_ranges(before).push(header.range));
                assert(header_ranges(events).drop_last() =~= header_ranges(before));
                if prior.len() > 0 {
                    assert(ranges_of(prior).last() == prior.last().range);
                }
                assert(ranges_of(opened) =~= runs(header_ranges(events)));
            },
            None => {
                assert(header_ranges(events) == header_ranges(before));
            },
        }
    }
    lemma_runs(header_ranges(events));
    assert forall|j: int| 0 <= j < hunks.len() - 1 implies (#[trigger] hunks[j]).range != hunks[j
        + 1].range by {
        assert(ranges_of(hunks)[j] == hunks[j].range);
        assert(ranges_of(hunks)[j + 1] == hunks[j + 1].range);
    }
}

/// A finished diff is well formed: where it is binary it has no hunks.
pub proof fn lemma_diff_well_formed(file_path: Seq<char>, events: Seq<DiffEventView>)
    ensures
        diff_of(file_path, events).well_formed(),
{
}

/// Whether a step numbers its line as the kind of the line asks.
pub open spec fn numbered_by_kind(event: DiffEventView) -> bool {
    match line_of(event) {
        Some(line) => line.numbered_by_kind(),
        None => true,
    }
}

/// Where every step numbers its line as its kind asks, so does every line
/// of every hunk.
pub proof fn lemma_lines_numbered(file_path: Seq<char>, events: Seq<DiffEventView>)
    requires
        forall|k: int| 0 <= k < events.len() ==> numbered_by_kind(#[trigger] events[k]),
    ensures
        forall|i: int, j: int|
            0 <= i < fed_all(started(file_path), events).hunks.len() && 0 <= j < fed_all(
                started(file_path),
                events,
            ).hunks[i].lines.len() ==> (#[trigger] fed_all(
                started(file_path),
                events,
            ).hunks[i].lines[j]).numbered_by_kind(),
    decreases events.len(),
{
    if events.len() > 0 {
        let before = events.drop_last();
        assert forall|k: int| 0 <= k < before.len() implies numbered_by_kind(
            #[trigger] before[k],
        ) by {
            assert(before[k] == events[k]);
        }
        lemma_lines_numbered(file_path, before);
        assert(numbered_by_kind(events[events.len() - 1]));
    }
}

/// Builds the diff of one file from the steps of its patch.
pub struct DiffHunkBuilder {
    path: String,
    old_path: Option<String>,
    is_binary: bool,
    hunks: Vec<DiffHunk>,
}

impl View for DiffHunkBuilder {
    type V = FileDiffView;

    closed spec fn view(&self) -> FileDiffView {
        FileDiffView {
            path: self.path@,
            old_path: self.old_path.deep_view(),
            is_binary: self.is_binary,
            hunks: self.hunks.deep_view(),
        }
    }
}

/// What a patch line with the given sigil counts as in a hunk.
pub fn change_type_of(origin: char) -> (kind: Option<LineChangeType>)
    ensures
        kind == line_kind(origin),
{
    if origin == ' ' {
        Some(LineChangeType::Context)
    } else if origin == '+' {
        Some(LineChangeType::Addition)
    } else if origin == '-' {
        Some(LineChangeType::Deletion)
    } else if origin == '=' || origin == '>' || origin == '<' {
        Some(LineChangeType::Context)
    } else {
        None
    }
}

impl DiffHunkBuilder {
    /// A builder for the file asked for as `file_path`.
    pub fn new(file_path: &str) -> (builder: DiffHunkBuilder)
        ensures
            builder@ == started(file_path@),
    {
        let builder = DiffHunkBuilder {
            path: file_path.to_owned(),
            old_path: None,
            is_binary: false,
            hunks: Vec::new(),
        };
        assert(builder.hunks.deep_view() =~= Seq::<DiffHunkView>::empty());
        builder
    }

    /// Takes in one step of the patch.
    pub fn push(&mut self, event: DiffEvent)
        ensures
            final(self)@ == fed(old(self)@, event@),
    {
        let ghost before = self@;
        let DiffEvent {
            new_path,
            old_path,
            is_binary,
            hunk,
            origin,
            content,
            old_line_no,
            new_line_no,
        } = event;
        match new_path {
            Some(p) => {
                assert(p.deep_view() =~= p@);
                self.path = decode_utf8_lossy(p.as_slice());
            },
            None => {
                if let Some(p) = &old_path {
                    assert(p.deep_view() =~= p@);
                    self.path = decode_utf8_lossy(p.as_slice());
                }
            },
        }
        if let Some(p) = old_path {
            assert(p.deep_view() =~= p@);
            let old = decode_utf8_lossy(p.as_slice());
            if !str_eq(old.as_str(), self.path.as_str()) {
                self.old_path = Some(old);
            }
        }
        if is_binary {
            self.is_binary = true;
        }
        if let Some(header) = hunk {
            let count: usize = self.hunks.len();
            let opens = count == 0 || self.hunks[count - 1].range() != header.range;
            if opens {
                let text = decode_utf8_lossy(header.header.as_slice());
                self.hunks.push(
                    DiffHunk {
                        old_start: header.range.old_start,
                        old_lines: header.range.old_lines,
                        new_start: header.range.new_start,
                        new_lines: header.range.new_lines,
                        header: trim_end(text.as_str()),
                        lines: Vec::new(),
                    },
                );
                proof {
                    let made = self.hunks@.last();
                    assert(made.lines.deep_view() =~= Seq::<DiffLineView>::empty());
                    assert(self.hunks.deep_view() =~= with_header(before.hunks, event@));
                }
            }
        }
        assert(self.hunks.deep_view() == with_header(before.hunks, event@));
        let ghost opened = self.hunks.deep_view();
        if let Some(kind) = change_type_of(origin) {
            if let Some(mut last) = self.hunks.pop() {
                let ghost rest = self.hunks.deep_view();
                let ghost lines = last.lines.deep_view();
                let text = decode_utf8_lossy(content.as_slice());
                let line = DiffLine {
                    change_type: kind,
                    content: trim_trailing_newlines(text.as_str()),
                    old_line_no,
                    new_line_no,
                };
                last.lines.push(line);
                proof {
                    assert(last.lines.deep_view() =~= lines.push(line@));
                }
                self.hunks.push(last);
                proof {
                    assert(rest =~= opened.drop_last());
                    assert(self.hunks.deep_view() =~= with_line(opened, event@));
                }
            }
        }
    }

    /// The diff that the steps so far amount to.
    pub fn finish(self) -> (diff: FileDiff)
        ensures
            diff@ == finished(self@),
            diff@.well_formed(),
    {
        if self.is_binary {
            let diff = FileDiff {
                path: self.path,
                old_path: self.old_path,
                is_binary: true,
                hunks: Vec::new(),
            };
            assert(diff.hunks.deep_view() =~= Seq::<DiffHunkView>::empty());
            diff
        } else {
            FileDiff {
                path: self.path,
                old_path: self.old_path,
                is_binary: false,
                hunks: self.hunks,
            }
        }
    }
}

/// The diff of the file asked for as `file_path`, from the steps of its
/// patch.
pub fn build_file_diff(file_path: &str, events: Vec<DiffEvent>) -> (diff: FileDiff)
    ensures
        diff@ == diff_of(file_path@, events.deep_view()),
        diff@.well_formed(),
{
    let ghost all = events.deep_view();
    let mut builder = DiffHunkBuilder::new(file_path);
    proof {
        assert(all.take(0) =~= Seq::<DiffEventView>::empty());
    }
    for event in it: events
        invariant
            it.seq().len() == all.len(),
            forall|i: int| 0 <= i < all.len() ==> it.seq()[i]@ == all[i],
            builder@ == fed_all(started(file_path@), all.take(it.index() as int)),
    {
        proof {
            let i = it.index() as int;
            assert(all.take(i + 1).drop_last() =~= all.take(i));
            assert(all.take(i + 1).last() == event@);
        }
        builder.push(event);
    }
    proof {
        assert(all.take(all.len() as int) =~= all);
    }
    builder.finish()
}

/// The diff of one file of an open repository under the given target. A
/// path that is absolute, holds `..` or holds NUL is refused before the
/// repository is asked. Otherwise the diff is what the builder makes of the
/// steps that the repository gave.
pub fn get_file_diff_with_repo(repo: &git2::Repository, file_path: &str, target: DiffTarget) -> (diff:
    Result<FileDiff, CoreError>)
    ensures
        !is_queryable(file_path@) ==> diff is Err,
        diff matches Ok(d) ==> {
            &&& d@.well_formed()
            &&& exists|events: Seq<DiffEventView>| d@ == diff_of(file_path@, events)
        },
        diff matches Err(e) ==> if is_queryable(file_path@) {
            e@ is VersionControl
        } else if is_safe_relative(file_path@) {
            e@ == CoreErrorView::InvalidPath(nul_reason())
        } else {
            e@ == CoreErrorView::InvalidPath(unsafe_path_reason())
        },
{
    match validate_query_path(file_path) {
        Err(e) => {
            return Err(e);
        },
        Ok(()) => {},
    }
    let made = match target {
        DiffTarget::Staged => {
            let head = head_tree(repo);
            diff_tree_to_index(repo, head.as_ref(), file_path, CONTEXT_LINES)
        },
        DiffTarget::Unstaged => diff_index_to_workdir(repo, file_path, CONTEXT_LINES),
    };
    let patch = match made {
        Ok(patch) => patch,
        Err(e) => {
            return Err(git_error(&e));
        },
    };
    let events = match diff_events(&patch) {
        Ok(events) => events,
        Err(e) => {
            return Err(git_error(&e));
        },
    };
    let ghost steps = events.deep_view();
    let diff = build_file_diff(file_path, events);
    assert(diff@ == diff_of(file_path@, steps));
    Ok(diff)
}

/// The diff of one file of the repository at or above `repo_path`.
pub fn get_file_diff(repo_path: &str, file_path: &str, target: DiffTarget) -> (diff: Result<
    FileDiff,
    CoreError,
>)
    ensures
        !is_queryable(file_path@) ==> diff is Err,
        diff matches Ok(d) ==> {
            &&& d@.well_formed()
            &&& exists|events: Seq<DiffEventView>| d@ == diff_of(file_path@, events)
        },
        diff matches Err(e) ==> if is_queryable(file_path@) {
            e@ is VersionControl
        } else if is_safe_relative(file_path@) {
            e@ == CoreErrorView::InvalidPath(nul_reason())
        } else {
            e@ == CoreErrorView::InvalidPath(unsafe_path_reason())
        },
{
    match validate_query_path(file_path) {
        Err(e) => {
            return Err(e);
        },
        Ok(()) => {},
    }
    let repo = match discover_repository(repo_path) {
        Ok(repo) => repo,
        Err(e) => {
            return Err(e);
        },
    };
    get_file_diff_with_repo(&repo, file_path, target)
}

} // verus!
