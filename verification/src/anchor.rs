//! Anchors: how a comment finds its line again after the file has changed.
//!
//! An anchor keeps the three-line window around its line: the line above,
//! the line itself and the line below, joined by line feeds, with an empty
//! text where a neighbour is missing. Re-anchoring looks for the first line of
//! the current file whose window is the stored one.

use crate::text::{as_str_slices, lines_of, newline, split_lines, str_eq};
use crate::types::{Comment, CommentAnchor, CommentAnchorView, CommentView};
use vstd::prelude::*;
use vstd::string::StringExecFns;

verus! {

/// The line at index `i`, or the empty text where there is no such line.
pub open spec fn line_or_empty(lines: Seq<Seq<char>>, i: int) -> Seq<char> {
    if 0 <= i < lines.len() {
        lines[i]
    } else {
        Seq::empty()
    }
}

/// The window around the line at index `i`.
pub open spec fn context_window(lines: Seq<Seq<char>>, i: int) -> Seq<char> {
    line_or_empty(lines, i - 1) + newline() + line_or_empty(lines, i) + newline() + line_or_empty(
        lines,
        i + 1,
    )
}

/// The window around line number `line_number` of a text. Line numbers start
/// at 1; line number 0 is read as 1.
pub open spec fn window_at_line(text: Seq<char>, line_number: u32) -> Seq<char> {
    context_window(
        lines_of(text),
        if line_number == 0 {
            0
        } else {
            line_number - 1
        },
    )
}

/// Whether the line at index `i` has the window `context` and a line number
/// that a `u32` can hold.
pub open spec fn window_matches(lines: Seq<Seq<char>>, context: Seq<char>, i: int) -> bool {
    &&& 0 <= i < lines.len()
    &&& i < u32::MAX
    &&& context_window(lines, i) == context
}

/// Whether `i` is the first index whose window is `context`.
pub open spec fn first_match(lines: Seq<Seq<char>>, context: Seq<char>, i: int) -> bool {
    &&& window_matches(lines, context, i)
    &&& forall|j: int| 0 <= j < i ==> !window_matches(lines, context, j)
}

/// The line number of the first line whose window is `context`, if any line
/// has it.
pub open spec fn anchor_line(lines: Seq<Seq<char>>, context: Seq<char>) -> Option<u32> {
    if exists|i: int| first_match(lines, context, i) {
        Some(((choose|i: int| first_match(lines, context, i)) + 1) as u32)
    } else {
        None
    }
}

/// An anchor with window `context`, last seen at `line`, looked up in
/// `lines`: anchored at the first line with that window, or orphaned at the
/// line it had.
pub open spec fn relocated(lines: Seq<Seq<char>>, line: u32, context: Seq<char>) -> CommentAnchorView {
    match anchor_line(lines, context) {
        Some(found) => CommentAnchorView::Anchored { line: found, context },
        None => CommentAnchorView::Orphaned { last_known_line: line, context },
    }
}

/// What re-anchoring makes of an anchor, given the lines of the current file.
/// A pinned anchor stays as it is.
pub open spec fn reanchored(anchor: CommentAnchorView, lines: Seq<Seq<char>>) -> CommentAnchorView {
    match anchor {
        CommentAnchorView::Pinned { line } => anchor,
        CommentAnchorView::Anchored { line, context } => relocated(lines, line, context),
        CommentAnchorView::Orphaned { last_known_line, context } => relocated(
            lines,
            last_known_line,
            context,
        ),
    }
}

/// The anchor that is stored when a comment is saved. With the file's text
/// and a line number above 0, the anchor takes the window at that line.
/// With the text and line number 0 it is kept. Without the text it becomes
/// pinned at its line.
pub open spec fn anchor_to_save(anchor: CommentAnchorView, contents: Option<Seq<char>>) -> CommentAnchorView {
    match contents {
        None => CommentAnchorView::Pinned { line: anchor.line() },
        Some(text) => if anchor.line() > 0 {
            CommentAnchorView::Anchored {
                line: anchor.line(),
                context: window_at_line(text, anchor.line()),
            }
        } else {
            anchor
        },
    }
}

/// At most one index is the first match.
pub proof fn lemma_first_match_unique(lines: Seq<Seq<char>>, context: Seq<char>, i: int, j: int)
    requires
        first_match(lines, context, i),
        first_match(lines, context, j),
    ensures
        i == j,
{
}

/// What `anchor_line` gives: the number of the first matching line, and
/// nothing only where no line matches.
pub proof fn lemma_anchor_line(lines: Seq<Seq<char>>, context: Seq<char>)
    ensures
        match anchor_line(lines, context) {
            Some(line) => first_match(lines, context, line - 1),
            None => forall|i: int| !window_matches(lines, context, i),
        },
{
    if exists|i: int| first_match(lines, context, i) {
        let i = choose|i: int| first_match(lines, context, i);
        assert(((i + 1) as u32) == i + 1);
    } else {
        assert forall|i: int| !window_matches(lines, context, i) by {
            lemma_no_match_below(lines, context, i + 1);
        }
    }
}

/// Where no index is a first match, no index below `bound` matches at all.
proof fn lemma_no_match_below(lines: Seq<Seq<char>>, context: Seq<char>, bound: int)
    requires
        !exists|i: int| first_match(lines, context, i),
    ensures
        forall|j: int| j < bound ==> !window_matches(lines, context, j),
    decreases bound,
{
    if bound > 0 {
        lemma_no_match_below(lines, context, bound - 1);
        if window_matches(lines, context, bound - 1) {
            assert(first_match(lines, context, bound - 1));
        }
    }
}

/// Re-anchoring never moves a pinned anchor, whatever the file holds.
pub proof fn lemma_pinned_stays(line: u32, lines: Seq<Seq<char>>)
    ensures
        reanchored(CommentAnchorView::Pinned { line }, lines) == (CommentAnchorView::Pinned {
            line,
        }),
{
}

/// Re-anchoring keeps the window of an anchor, and an anchor that comes out
/// anchored points at a line of the file that has this window.
pub proof fn lemma_reanchored_matches(anchor: CommentAnchorView, lines: Seq<Seq<char>>)
    ensures
        reanchored(anchor, lines).context() == anchor.context(),
        reanchored(anchor, lines) matches CommentAnchorView::Anchored { line, context } ==> {
            &&& !(anchor is Pinned)
            &&& 1 <= line <= lines.len()
            &&& context_window(lines, line - 1) == context
        },
        reanchored(anchor, lines) matches CommentAnchorView::Orphaned { last_known_line, context }
            ==> {
            &&& last_known_line == anchor.line()
            &&& forall|i: int| !window_matches(lines, context, i)
        },
{
    match anchor.context() {
        Some(context) => {
            lemma_anchor_line(lines, context);
        },
        None => {},
    }
}

/// Re-anchoring a second time against the same file changes nothing.
pub proof fn lemma_reanchored_twice(anchor: CommentAnchorView, lines: Seq<Seq<char>>)
    ensures
        reanchored(reanchored(anchor, lines), lines) == reanchored(anchor, lines),
{
}

/// A comment saved at a line of a text is found again in that text: at the
/// first line that has the window of the line it was saved at, which is that
/// line or one before it.
pub proof fn lemma_saved_anchor_is_found(text: Seq<char>, line: u32)
    requires
        1 <= line <= lines_of(text).len(),
    ensures
        anchor_line(lines_of(text), window_at_line(text, line)) matches Some(found) && found
            <= line,
{
    let lines = lines_of(text);
    let context = window_at_line(text, line);
    assert(window_matches(lines, context, line - 1));
    lemma_anchor_line(lines, context);
    let found = anchor_line(lines, context)->0;
    if found > line {
        assert(first_match(lines, context, found - 1));
    }
}

/// The three-line window around `lines[line_idx]`.
pub fn build_context_window(lines: &[&str], line_idx: usize) -> (window: String)
    ensures
        window@ == context_window(lines.deep_view(), line_idx as int),
{
    let before: &str = if line_idx > 0 && line_idx - 1 < lines.len() {
        lines[line_idx - 1]
    } else {
        ""
    };
    let target: &str = if line_idx < lines.len() {
        lines[line_idx]
    } else {
        ""
    };
    let after: &str = if line_idx < usize::MAX && line_idx + 1 < lines.len() {
        lines[line_idx + 1]
    } else {
        ""
    };
    proof {
        reveal_strlit("");
        reveal_strlit("\n");
        assert(""@ =~= Seq::<char>::empty());
        assert("\n"@ =~= newline());
    }
    let mut window = String::new();
    window.append(before);
    window.append("\n");
    window.append(target);
    window.append("\n");
    window.append(after);
    assert(window@ =~= context_window(lines.deep_view(), line_idx as int));
    window
}

/// The window around line number `line_number` of `file_contents`.
pub fn extract_context_window(file_contents: &str, line_number: u32) -> (window: String)
    ensures
        window@ == window_at_line(file_contents@, line_number),
{
    let lines = split_lines(file_contents);
    let slices = as_str_slices(&lines);
    let line_idx: usize = if line_number == 0 {
        0
    } else {
        (line_number - 1) as usize
    };
    let view: &[&str] = slices.as_slice();
    assert(view.deep_view() =~= slices.deep_view());
    build_context_window(view, line_idx)
}

/// The number of the first line whose window is `context`.
pub fn find_anchor_line(lines: &[&str], context: &str) -> (found: Option<u32>)
    ensures
        found == anchor_line(lines.deep_view(), context@),
{
    let ghost model = lines.deep_view();
    let mut idx: usize = 0;
    while idx < lines.len() && idx < u32::MAX as usize
        invariant
            model == lines.deep_view(),
            idx <= lines@.len(),
            forall|j: int| 0 <= j < idx ==> !window_matches(model, context@, j),
        decreases lines@.len() - idx,
    {
        let window = build_context_window(lines, idx);
        if str_eq(window.as_str(), context) {
            assert(first_match(model, context@, idx as int));
            proof {
                lemma_anchor_line(model, context@);
                lemma_first_match_unique(
                    model,
                    context@,
                    idx as int,
                    anchor_line(model, context@)->0 - 1,
                );
            }
            return Some((idx + 1) as u32);
        }
        idx = idx + 1;
    }
    assert forall|i: int| !first_match(model, context@, i) by {
        if first_match(model, context@, i) {
            assert(window_matches(model, context@, i));
        }
    }
    None
}

/// Re-anchors an anchor against the lines of the current file.
pub fn reanchor(anchor: CommentAnchor, lines: &[&str]) -> (moved: CommentAnchor)
    ensures
        moved@ == reanchored(anchor@, lines.deep_view()),
{
    match anchor {
        CommentAnchor::Pinned { line } => CommentAnchor::Pinned { line },
        CommentAnchor::Anchored { line, context } => {
            match find_anchor_line(lines, context.as_str()) {
                Some(found) => CommentAnchor::Anchored { line: found, context },
                None => CommentAnchor::Orphaned { last_known_line: line, context },
            }
        },
        CommentAnchor::Orphaned { last_known_line, context } => {
            match find_anchor_line(lines, context.as_str()) {
                Some(found) => CommentAnchor::Anchored { line: found, context },
                None => CommentAnchor::Orphaned { last_known_line, context },
            }
        },
    }
}

/// Moves a comment's anchor to where its window now stands in
/// `file_contents`, or marks it orphaned where the window is gone. A pinned
/// comment is left as it is. Nothing but the anchor changes.
pub fn re_anchor_comment(comment: &mut Comment, file_contents: &str)
    ensures
        final(comment)@ == (CommentView {
            anchor: reanchored(old(comment)@.anchor, lines_of(file_contents@)),
            ..old(comment)@
        }),
        old(comment)@.anchor is Pinned ==> final(comment)@ == old(comment)@,
{
    if let CommentAnchor::Pinned { .. } = comment.anchor {
        return ;
    }
    let lines = split_lines(file_contents);
    let slices = as_str_slices(&lines);
    let view: &[&str] = slices.as_slice();
    assert(view.deep_view() =~= slices.deep_view());
    let mut anchor = CommentAnchor::Pinned { line: 0 };
    std::mem::swap(&mut comment.anchor, &mut anchor);
    comment.anchor = reanchor(anchor, view);
}

} // verus!
