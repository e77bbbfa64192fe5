//! The comment collection of a repository: saving, deleting and reading
//! comments, and where the collection is kept on disk.
//!
//! The functions here work on a collection in memory. Reading it from disk
//! and writing it back, under the repository's lock, is the caller's part.

use crate::anchor::{anchor_to_save, extract_context_window, reanchor, reanchored};
use crate::error::{CoreError, CoreErrorView};
use crate::path::{is_safe_relative, unsafe_path_reason, validate_file_path};
use crate::text::{as_str_slices, chars_of, lines_of, split_lines, str_eq};
use crate::types::{Comment, CommentAnchor, CommentCollection, CommentView};
use vstd::prelude::*;
use vstd::string::StringExecFns;

verus! {

/// `base` with the relative path `name` below it.
pub open spec fn joined(base: Seq<char>, name: Seq<char>) -> Seq<char> {
    if base.len() == 0 || base.last() == '/' {
        base + name
    } else {
        base + seq!['/'] + name
    }
}

/// The directory that holds a repository's comments.
pub open spec fn comments_dir_of(repo_path: Seq<char>) -> Seq<char> {
    joined(repo_path, ".tinydiff"@)
}

/// Index of the first comment with the given id, or the number of comments
/// where none has it.
pub open spec fn position_of_id(comments: Seq<CommentView>, id: Seq<char>) -> nat
    decreases comments.len(),
{
    if comments.len() == 0 {
        0
    } else if comments[0].id == id {
        0
    } else {
        1 + position_of_id(comments.skip(1), id)
    }
}

/// Whether some comment has the given id.
pub open spec fn has_id(comments: Seq<CommentView>, id: Seq<char>) -> bool {
    exists|i: int| 0 <= i < comments.len() && comments[i].id == id
}

/// No two comments share an id.
pub open spec fn ids_unique(comments: Seq<CommentView>) -> bool {
    forall|i: int, j: int|
        0 <= i < j < comments.len() ==> (#[trigger] comments[i]).id != (#[trigger] comments[j]).id
}

/// The collection after `comment` is saved: it takes the place of the first
/// comment with its id, or goes to the end where no comment has its id.
pub open spec fn upserted(comments: Seq<CommentView>, comment: CommentView) -> Seq<CommentView> {
    let k = position_of_id(comments, comment.id);
    if k < comments.len() {
        comments.update(k as int, comment)
    } else {
        comments.push(comment)
    }
}

/// The collection without the comments that have the given id.
pub open spec fn without_id(comments: Seq<CommentView>, id: Seq<char>) -> Seq<CommentView> {
    comments.filter(|c: CommentView| c.id != id)
}

/// A comment as it is stored: with the anchor that saving gives it.
pub open spec fn comment_to_save(comment: CommentView, contents: Option<Seq<char>>) -> CommentView {
    CommentView { anchor: anchor_to_save(comment.anchor, contents), ..comment }
}

/// A comment as it is shown for the current text of its file.
pub open spec fn comment_shown(comment: CommentView, contents: Seq<char>) -> CommentView {
    CommentView { anchor: reanchored(comment.anchor, lines_of(contents)), ..comment }
}

/// The comments of one file, each re-anchored against the file's text.
pub open spec fn comments_shown(
    comments: Seq<CommentView>,
    file_path: Seq<char>,
    contents: Seq<char>,
) -> Seq<CommentView> {
    comments.filter(|c: CommentView| c.file_path == file_path).map_values(
        |c: CommentView| comment_shown(c, contents),
    )
}

/// `position_of_id` is the least index with the id, and the length exactly
/// where no comment has it.
pub proof fn lemma_position_of_id(comments: Seq<CommentView>, id: Seq<char>)
    ensures
        position_of_id(comments, id) <= comments.len(),
        forall|i: int| 0 <= i < position_of_id(comments, id) ==> comments[i].id != id,
        position_of_id(comments, id) < comments.len() ==> comments[position_of_id(
            comments,
            id,
        ) as int].id == id,
        position_of_id(comments, id) < comments.len() <==> has_id(comments, id),
    decreases comments.len(),
{
    if comments.len() > 0 && comments[0].id != id {
        let rest = comments.skip(1);
        lemma_position_of_id(rest, id);
        assert forall|i: int| 0 <= i < position_of_id(comments, id) implies comments[i].id
            != id by {
            if i > 0 {
                assert(rest[i - 1] == comments[i]);
            }
        }
        if position_of_id(comments, id) < comments.len() {
            assert(rest[position_of_id(rest, id) as int] == comments[position_of_id(
                comments,
                id,
            ) as int]);
        }
    }
    let k = position_of_id(comments, id);
    if k < comments.len() {
        assert(comments[k as int].id == id);
    } else {
        assert(!has_id(comments, id));
    }
}

/// One change to a collection.
pub enum StoreOp {
    /// A comment is saved, in the form in which it is stored.
    Save(CommentView),
    /// The comments with an id are deleted.
    Delete(Seq<char>),
}

/// The collection after one change.
pub open spec fn applied(comments: Seq<CommentView>, op: StoreOp) -> Seq<CommentView> {
    match op {
        StoreOp::Save(comment) => upserted(comments, comment),
        StoreOp::Delete(id) => without_id(comments, id),
    }
}

/// The collection after a sequence of changes.
pub open spec fn applied_all(comments: Seq<CommentView>, ops: Seq<StoreOp>) -> Seq<CommentView>
    decreases ops.len(),
{
    if ops.len() == 0 {
        comments
    } else {
        applied(applied_all(comments, ops.drop_last()), ops.last())
    }
}

/// The comment that was saved last under `id`, unless the id was deleted
/// since or never saved.
pub open spec fn last_written(ops: Seq<StoreOp>, id: Seq<char>) -> Option<CommentView>
    decreases ops.len(),
{
    if ops.len() == 0 {
        None
    } else {
        match ops.last() {
            StoreOp::Save(comment) => if comment.id == id {
                Some(comment)
            } else {
                last_written(ops.drop_last(), id)
            },
            StoreOp::Delete(deleted) => if deleted == id {
                None
            } else {
                last_written(ops.drop_last(), id)
            },
        }
    }
}

/// Saving keeps ids unique, puts the saved comment into the collection, and
/// leaves the comments with other ids as they are.
pub proof fn lemma_upserted(comments: Seq<CommentView>, comment: CommentView)
    ensures
        upserted(comments, comment).contains(comment),
        ids_unique(comments) ==> ids_unique(upserted(comments, comment)),
        forall|other: CommentView|
            other.id != comment.id ==> (#[trigger] upserted(comments, comment).contains(other)
                <==> comments.contains(other)),
        forall|id: Seq<char>|
            id != comment.id ==> (#[trigger] has_id(upserted(comments, comment), id) <==> has_id(
                comments,
                id,
            )),
{
    let k = position_of_id(comments, comment.id) as int;
    let after = upserted(comments, comment);
    lemma_position_of_id(comments, comment.id);
    if k < comments.len() {
        assert(after[k] == comment);
    } else {
        assert(after[comments.len() as int] == comment);
    }
    assert forall|other: CommentView| other.id != comment.id implies (#[trigger] after.contains(
        other,
    ) <==> comments.contains(other)) by {
        if after.contains(other) {
            let i = choose|i: int| 0 <= i < after.len() && after[i] == other;
            assert(comments[i] == other);
        }
        if comments.contains(other) {
            let i = choose|i: int| 0 <= i < comments.len() && comments[i] == other;
            assert(after[i] == other);
        }
    }
    assert forall|id: Seq<char>| id != comment.id implies (#[trigger] has_id(after, id) <==> has_id(
        comments,
        id,
    )) by {
        if has_id(after, id) {
            let i = choose|i: int| 0 <= i < after.len() && after[i].id == id;
            assert(comments[i].id == id);
        }
        if has_id(comments, id) {
            let i = choose|i: int| 0 <= i < comments.len() && comments[i].id == id;
            assert(after[i].id == id);
        }
    }
    if ids_unique(comments) {
        assert forall|i: int, j: int| 0 <= i < j < after.len() implies (#[trigger] after[i]).id != (
        #[trigger] after[j]).id by {
            if k < comments.len() {
                assert(after[i].id == comments[i].id);
                assert(after[j].id == comments[j].id);
            } else if j == comments.len() {
                assert(after[i] == comments[i]);
            } else {
                assert(after[i] == comments[i]);
                assert(after[j] == comments[j]);
            }
        }
    }
}

/// Deleting keeps ids unique, leaves no comment with the deleted id, and
/// leaves the comments with other ids as they are.
pub proof fn lemma_without_id(comments: Seq<CommentView>, id: Seq<char>)
    ensures
        !has_id(without_id(comments, id), id),
        ids_unique(comments) ==> ids_unique(without_id(comments, id)),
        forall|other: CommentView|
            other.id != id ==> (#[trigger] without_id(comments, id).contains(other)
                <==> comments.contains(other)),
        forall|other_id: Seq<char>|
            other_id != id ==> (#[trigger] has_id(without_id(comments, id), other_id) <==> has_id(
                comments,
                other_id,
            )),
    decreases comments.len(),
{
    reveal(Seq::filter);
    let keep = |c: CommentView| c.id != id;
    let after = without_id(comments, id);
    if comments.len() == 0 {
        assert(after =~= comments);
    } else {
        let front = comments.drop_last();
        let last = comments.last();
        let front_after = without_id(front, id);
        lemma_without_id(front, id);
        assert(after == if keep(last) {
            front_after.push(last)
        } else {
            front_after
        });
        assert forall|other: CommentView| other.id != id implies (#[trigger] after.contains(other)
            <==> comments.contains(other)) by {
            if after.contains(other) {
                let i = choose|i: int| 0 <= i < after.len() && after[i] == other;
                if i < front_after.len() {
                    assert(front_after[i] == other);
                    assert(front_after.contains(other));
                    let j = choose|j: int| 0 <= j < front.len() && front[j] == other;
                    assert(comments[j] == other);
                } else {
                    assert(comments[comments.len() - 1] == other);
                }
            }
            if comments.contains(other) {
                let j = choose|j: int| 0 <= j < comments.len() && comments[j] == other;
                if j < front.len() {
                    assert(front[j] == other);
                    assert(front.contains(other));
                    assert(front_after.contains(other));
                    let i = choose|i: int| 0 <= i < front_after.len() && front_after[i] == other;
                    assert(after[i] == other);
                } else {
                    assert(after[after.len() - 1] == other);
                }
            }
        }
        assert forall|other_id: Seq<char>| other_id != id implies (#[trigger] has_id(
            after,
            other_id,
        ) <==> has_id(comments, other_id)) by {
            if has_id(after, other_id) {
                let i = choose|i: int| 0 <= i < after.len() && after[i].id == other_id;
                assert(after.contains(after[i]));
                assert(comments.contains(after[i]));
                let j = choose|j: int| 0 <= j < comments.len() && comments[j] == after[i];
                assert(comments[j].id == other_id);
            }
            if has_id(comments, other_id) {
                let j = choose|j: int| 0 <= j < comments.len() && comments[j].id == other_id;
                assert(comments.contains(comments[j]));
                assert(after.contains(comments[j]));
                let i = choose|i: int| 0 <= i < after.len() && after[i] == comments[j];
                assert(after[i].id == other_id);
            }
        }
        if has_id(after, id) {
            let i = choose|i: int| 0 <= i < after.len() && after[i].id == id;
            if i < front_after.len() {
                assert(front_after[i].id == id);
                assert(has_id(front_after, id));
            }
        }
        if ids_unique(comments) {
            assert(ids_unique(front)) by {
                assert forall|i: int, j: int| 0 <= i < j < front.len() implies (
                #[trigger] front[i]).id != (#[trigger] front[j]).id by {
                    assert(front[i] == comments[i]);
                    assert(front[j] == comments[j]);
                }
            }
            assert forall|i: int, j: int| 0 <= i < j < after.len() implies (#[trigger] after[i]).id
                != (#[trigger] after[j]).id by {
                if j < front_after.len() {
                    assert(after[i] == front_after[i]);
                    assert(after[j] == front_after[j]);
                } else {
                    assert(after[j] == last);
                    assert(after[i] == front_after[i]);
                    assert(front_after.contains(front_after[i]));
                    let m = choose|m: int| 0 <= m < front.len() && front[m] == front_after[i];
                    assert(comments[m] == front_after[i]);
                    assert(comments[comments.len() - 1] == last);
                }
            }
        }
    }
}

/// A comment that was saved last under an id has that id.
pub proof fn lemma_last_written_id(ops: Seq<StoreOp>, id: Seq<char>)
    ensures
        last_written(ops, id) matches Some(comment) ==> comment.id == id,
    decreases ops.len(),
{
    if ops.len() > 0 {
        lemma_last_written_id(ops.drop_last(), id);
    }
}

/// After any sequence of saves and deletes on an empty collection, no two
/// comments share an id, and for every id the collection holds the comment
/// that was saved last under it, or no comment with that id where it was
/// deleted since or never saved.
pub proof fn lemma_store_holds_last_written(ops: Seq<StoreOp>, id: Seq<char>)
    ensures
        ids_unique(applied_all(Seq::empty(), ops)),
        match last_written(ops, id) {
            Some(comment) => comment.id == id && applied_all(Seq::empty(), ops).contains(comment),
            None => !has_id(applied_all(Seq::empty(), ops), id),
        },
    decreases ops.len(),
{
    let now = applied_all(Seq::<CommentView>::empty(), ops);
    if ops.len() > 0 {
        let before = applied_all(Seq::<CommentView>::empty(), ops.drop_last());
        lemma_store_holds_last_written(ops.drop_last(), id);
        lemma_last_written_id(ops, id);
        lemma_last_written_id(ops.drop_last(), id);
        match ops.last() {
            StoreOp::Save(comment) => {
                lemma_upserted(before, comment);
            },
            StoreOp::Delete(deleted) => {
                lemma_without_id(before, deleted);
            },
        }
    }
}

/// With unique ids, a comment of the collection is the only one with its
/// id.
pub proof fn lemma_unique_entry(comments: Seq<CommentView>, comment: CommentView, i: int)
    requires
        ids_unique(comments),
        comments.contains(comment),
        0 <= i < comments.len(),
        comments[i].id == comment.id,
    ensures
        comments[i] == comment,
{
    let j = choose|j: int| 0 <= j < comments.len() && comments[j] == comment;
    if i < j {
        assert(comments[i].id != comments[j].id);
    } else if j < i {
        assert(comments[j].id != comments[i].id);
    }
}

/// `base` with the relative path `name` below it.
pub fn join_path(base: &str, name: &str) -> (path: String)
    ensures
        path@ == joined(base@, name@),
{
    let chars = chars_of(base);
    let mut path = base.to_owned();
    if chars.len() > 0 && chars[chars.len() - 1] != '/' {
        proof {
            reveal_strlit("/");
            assert("/"@ =~= seq!['/']);
        }
        path.append("/");
    }
    path.append(name);
    path
}

/// The directory that holds a repository's comments.
pub fn comments_dir(repo_path: &str) -> (path: String)
    ensures
        path@ == comments_dir_of(repo_path@),
{
    join_path(repo_path, ".tinydiff")
}

/// The file that holds a repository's comments.
pub fn comments_file_path(repo_path: &str) -> (path: String)
    ensures
        path@ == joined(comments_dir_of(repo_path@), "comments.json"@),
{
    let dir = comments_dir(repo_path);
    join_path(dir.as_str(), "comments.json")
}

/// The file that a new version of the collection is written to before it
/// takes the place of the comment file.
pub fn comments_temp_path(repo_path: &str) -> (path: String)
    ensures
        path@ == joined(comments_dir_of(repo_path@), "comments.json.tmp"@),
{
    let dir = comments_dir(repo_path);
    join_path(dir.as_str(), "comments.json.tmp")
}

/// The file whose lock guards the comment file.
pub fn comments_lock_path(repo_path: &str) -> (path: String)
    ensures
        path@ == joined(comments_dir_of(repo_path@), "comments.lock"@),
{
    let dir = comments_dir(repo_path);
    join_path(dir.as_str(), "comments.lock")
}

/// The anchor that is stored for a comment saved with the given text of its
/// file.
pub fn anchor_for_save(anchor: CommentAnchor, file_contents: Option<&str>) -> (stored: CommentAnchor)
    ensures
        stored@ == anchor_to_save(anchor@, file_contents.deep_view()),
{
    match file_contents {
        None => CommentAnchor::Pinned { line: anchor.line() },
        Some(contents) => {
            let line: u32 = anchor.line();
            if line > 0 {
                CommentAnchor::Anchored { line, context: extract_context_window(contents, line) }
            } else {
                anchor
            }
        },
    }
}

/// Saves a comment into the collection. A comment whose file path is
/// absolute or holds `..` is refused and the collection is left as it is.
/// Otherwise the comment gets the anchor for the given text and takes the
/// place of the comment with its id, or is added at the end.
pub fn save_comment(
    collection: &mut CommentCollection,
    comment: Comment,
    file_contents: Option<&str>,
) -> (saved: Result<(), CoreError>)
    ensures
        saved is Ok <==> is_safe_relative(comment@.file_path),
        saved matches Err(e) ==> {
            &&& e@ == CoreErrorView::InvalidPath(unsafe_path_reason())
            &&& final(collection)@ == old(collection)@
        },
        saved is Ok ==> final(collection)@ == upserted(
            old(collection)@,
            comment_to_save(comment@, file_contents.deep_view()),
        ),
{
    match validate_file_path(comment.file_path.as_str()) {
        Err(e) => {
            return Err(e);
        },
        Ok(()) => {},
    }
    let Comment { id, file_path, anchor, body, resolved, created_at, updated_at } = comment;
    let stored = Comment {
        id,
        file_path,
        anchor: anchor_for_save(anchor, file_contents),
        body,
        resolved,
        created_at,
        updated_at,
    };
    assert(stored@ == comment_to_save(comment@, file_contents.deep_view()));
    let ghost before = collection@;
    let mut k: usize = 0;
    while k < collection.comments.len()
        invariant
            k <= collection.comments@.len(),
            collection@ == before,
            forall|i: int| 0 <= i < k ==> before[i].id != stored@.id,
        ensures
            k <= collection.comments@.len(),
            collection@ == before,
            forall|i: int| 0 <= i < k ==> before[i].id != stored@.id,
            k < collection.comments@.len() ==> before[k as int].id == stored@.id,
        decreases collection.comments@.len() - k,
    {
        if str_eq(collection.comments[k].id.as_str(), stored.id.as_str()) {
            break ;
        }
        k = k + 1;
    }
    proof {
        lemma_position_of_id(before, stored@.id);
    }
    if k < collection.comments.len() {
        collection.comments.set(k, stored);
        assert(collection@ =~= before.update(k as int, stored@));
    } else {
        collection.comments.push(stored);
        assert(collection@ =~= before.push(stored@));
    }
    Ok(())
}

/// Removes the comments with the given id and says whether there was one.
/// Where there was none the collection is left as it is.
pub fn delete_comment(collection: &mut CommentCollection, comment_id: &str) -> (removed: bool)
    ensures
        final(collection)@ == without_id(old(collection)@, comment_id@),
        removed == has_id(old(collection)@, comment_id@),
        !removed ==> final(collection)@ == old(collection)@,
{
    let ghost before = collection@;
    let ghost keep = |c: CommentView| c.id != comment_id@;
    let mut all: Vec<Comment> = Vec::new();
    std::mem::swap(&mut collection.comments, &mut all);
    let mut kept: Vec<Comment> = Vec::new();
    let mut removed = false;
    proof {
        reveal(Seq::filter);
        assert(before.take(0).filter(keep) =~= kept.deep_view());
    }
    for comment in it: all
        invariant
            it.seq().len() == before.len(),
            forall|i: int| 0 <= i < before.len() ==> it.seq()[i]@ == before[i],
            keep == |c: CommentView| c.id != comment_id@,
            kept.deep_view() == before.take(it.index() as int).filter(keep),
            removed == has_id(before.take(it.index() as int), comment_id@),
            !removed ==> kept.deep_view() == before.take(it.index() as int),
    {
        let ghost i = it.index() as int;
        let ghost prefix = before.take(i);
        let ghost next = before.take(i + 1);
        let ghost shown = kept.deep_view();
        proof {
            reveal(Seq::filter);
            assert(next.drop_last() =~= prefix);
            assert(next.last() == before[i]);
            assert(comment@ == before[i]);
        }
        if str_eq(comment.id.as_str(), comment_id) {
            removed = true;
            proof {
                assert(next[i].id == comment_id@);
                assert(has_id(next, comment_id@));
            }
        } else {
            kept.push(comment);
            proof {
                assert(kept.deep_view() =~= shown.push(before[i]));
                if has_id(next, comment_id@) {
                    let j = choose|j: int| 0 <= j < next.len() && next[j].id == comment_id@;
                    assert(prefix[j] == next[j]);
                    assert(has_id(prefix, comment_id@));
                }
                if has_id(prefix, comment_id@) {
                    let j = choose|j: int| 0 <= j < prefix.len() && prefix[j].id == comment_id@;
                    assert(prefix[j] == next[j]);
                    assert(has_id(next, comment_id@));
                }
                if !removed {
                    assert(shown.push(before[i]) =~= next);
                }
            }
        }
    }
    proof {
        assert(before.take(before.len() as int) =~= before);
    }
    collection.comments = kept;
    removed
}

/// The comments of the file `file_path`, in the collection's order, each
/// re-anchored against the file's current text. A path that is absolute or
/// holds `..` is refused.
pub fn get_comments_for_file(
    collection: CommentCollection,
    file_path: &str,
    file_contents: &str,
) -> (shown: Result<Vec<Comment>, CoreError>)
    ensures
        shown is Ok <==> is_safe_relative(file_path@),
        shown matches Err(e) ==> e@ == CoreErrorView::InvalidPath(unsafe_path_reason()),
        shown matches Ok(comments) ==> comments.deep_view() == comments_shown(
            collection@,
            file_path@,
            file_contents@,
        ),
{
    match validate_file_path(file_path) {
        Err(e) => {
            return Err(e);
        },
        Ok(()) => {},
    }
    let ghost before = collection@;
    let ghost of_file = |c: CommentView| c.file_path == file_path@;
    let ghost show = |c: CommentView| comment_shown(c, file_contents@);
    let lines = split_lines(file_contents);
    let slices = as_str_slices(&lines);
    let view: &[&str] = slices.as_slice();
    assert(view.deep_view() =~= lines_of(file_contents@));
    let mut result: Vec<Comment> = Vec::new();
    proof {
        reveal(Seq::filter);
        assert(before.take(0).filter(of_file).map_values(show) =~= result.deep_view());
    }
    for comment in it: collection.comments
        invariant
            it.seq().len() == before.len(),
            forall|i: int| 0 <= i < before.len() ==> it.seq()[i]@ == before[i],
            of_file == |c: CommentView| c.file_path == file_path@,
            show == |c: CommentView| comment_shown(c, file_contents@),
            view.deep_view() == lines_of(file_contents@),
            result.deep_view() == before.take(it.index() as int).filter(of_file).map_values(show),
    {
        let ghost i = it.index() as int;
        let ghost prefix = before.take(i);
        let ghost next = before.take(i + 1);
        let ghost shown = result.deep_view();
        proof {
            reveal(Seq::filter);
            assert(next.drop_last() =~= prefix);
            assert(next.last() == before[i]);
            assert(comment@ == before[i]);
        }
        if str_eq(comment.file_path.as_str(), file_path) {
            let Comment { id, file_path, anchor, body, resolved, created_at, updated_at } = comment;
            let moved = Comment {
                id,
                file_path,
                anchor: reanchor(anchor, view),
                body,
                resolved,
                created_at,
                updated_at,
            };
            assert(moved@ == comment_shown(before[i], file_contents@));
            result.push(moved);
            proof {
                assert(result.deep_view() =~= shown.push(show(before[i])));
                assert(next.filter(of_file) =~= prefix.filter(of_file).push(before[i]));
                assert(next.filter(of_file).map_values(show) =~= prefix.filter(of_file).map_values(
                    show,
                ).push(show(before[i])));
            }
        }
    }
    proof {
        assert(before.take(before.len() as int) =~= before);
    }
    Ok(result)
}

} // verus!
