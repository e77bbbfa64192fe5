//! Paths as text: the guard that keeps a caller's path inside a repository,
//! and the parts of a path that name a file.
//!
//! A path is a `/`-separated text, as a repository stores it. Its components
//! are the pieces between separators; empty pieces and `.` pieces carry no
//! meaning and are passed over.

use crate::error::{CoreError, CoreErrorView};
use crate::text::{
    after_last, chars_of, contains_text, find_char, has_dot_dot, index_of, is_nul_free,
    lemma_after_last_is, lemma_index_of, nul_free, range_is, string_from_chars,
};
use vstd::prelude::*;

verus! {

/// The reason given when a path is refused by `validate_file_path`.
pub open spec fn unsafe_path_reason() -> Seq<char> {
    "Invalid file path: must be relative and cannot contain '..'"@
}

/// The reason given when a path resolves to a place outside the repository.
pub open spec fn escape_reason() -> Seq<char> {
    "Path traversal detected: path escapes repository"@
}

/// A path is absolute when it begins at the root.
pub open spec fn is_absolute(path: Seq<char>) -> bool {
    path.len() > 0 && path[0] == '/'
}

/// A path that may be handed on: relative, and without two dots in a row
/// anywhere in it.
pub open spec fn is_safe_relative(path: Seq<char>) -> bool {
    !contains_text(path, seq!['.', '.']) && !is_absolute(path)
}

/// The meaningful pieces of a path, first to last: what stands between
/// separators, without the empty pieces and the `.` pieces.
pub open spec fn normal_components(path: Seq<char>) -> Seq<Seq<char>>
    decreases path.len(),
{
    if path.len() == 0 {
        Seq::empty()
    } else {
        let k = index_of(path, '/');
        let head = path.take(k as int);
        let rest = if k < path.len() {
            normal_components(path.skip((k + 1) as int))
        } else {
            Seq::empty()
        };
        if head.len() == 0 || head == seq!['.'] {
            rest
        } else {
            seq![head] + rest
        }
    }
}

/// The final component of a path, unless there is none or it is `..`.
pub open spec fn file_name(path: Seq<char>) -> Option<Seq<char>> {
    let components = normal_components(path);
    if components.len() == 0 || components.last() == seq!['.', '.'] {
        None
    } else {
        Some(components.last())
    }
}

/// What follows the last dot of a file name. A name without a dot has no
/// extension, nor has one whose only dot is its first character.
pub open spec fn extension_of(name: Seq<char>) -> Option<Seq<char>> {
    let k = after_last(name, '.');
    if k <= 1 {
        None
    } else {
        Some(name.skip(k as int))
    }
}

/// Whether the pairs of `ranges` cut the given pieces out of `chars`.
pub open spec fn ranges_cut(chars: Seq<char>, ranges: Seq<(usize, usize)>, pieces: Seq<Seq<char>>) -> bool {
    &&& ranges.len() == pieces.len()
    &&& forall|i: int|
        0 <= i < ranges.len() ==> {
            &&& (#[trigger] ranges[i]).0 <= ranges[i].1 <= chars.len()
            &&& chars.subrange(ranges[i].0 as int, ranges[i].1 as int) == pieces[i]
        }
}

/// Accepts a path that is relative and free of `..`, and refuses any other.
pub fn validate_file_path(file_path: &str) -> (checked: Result<(), CoreError>)
    ensures
        checked is Ok <==> is_safe_relative(file_path@),
        checked matches Err(e) ==> e@ == CoreErrorView::InvalidPath(unsafe_path_reason()),
{
    let chars = chars_of(file_path);
    if has_dot_dot(chars.as_slice()) || (chars.len() > 0 && chars[0] == '/') {
        return Err(
            CoreError::InvalidPath(
                "Invalid file path: must be relative and cannot contain '..'".to_owned(),
            ),
        );
    }
    Ok(())
}

/// A path that may be asked of the repository: safe, and free of NUL, which
/// the repository's paths cannot hold.
pub open spec fn is_queryable(path: Seq<char>) -> bool {
    is_safe_relative(path) && nul_free(path)
}

/// The reason given when a path holds NUL.
pub open spec fn nul_reason() -> Seq<char> {
    "Invalid file path: must not contain NUL"@
}

/// Accepts a path that may be asked of the repository, and refuses any
/// other: first one that is absolute or holds `..`, then one that holds NUL.
pub fn validate_query_path(file_path: &str) -> (checked: Result<(), CoreError>)
    ensures
        checked is Ok <==> is_queryable(file_path@),
        checked matches Err(e) ==> e@ == CoreErrorView::InvalidPath(
            if is_safe_relative(file_path@) {
                nul_reason()
            } else {
                unsafe_path_reason()
            },
        ),
{
    match validate_file_path(file_path) {
        Err(e) => {
            return Err(e);
        },
        Ok(()) => {},
    }
    let chars = chars_of(file_path);
    if !is_nul_free(chars.as_slice()) {
        return Err(CoreError::InvalidPath("Invalid file path: must not contain NUL".to_owned()));
    }
    Ok(())
}

/// How a path begins: at the root, at the current directory, or with a
/// component of its own.
#[derive(Debug, Clone, Copy, PartialEq, Eq, Structural)]
pub enum PathStart {
    Root,
    CurDir,
    Plain,
}

/// How a path begins. A path begins at the current directory when it is `.`
/// or begins with `./`.
pub open spec fn path_start(path: Seq<char>) -> PathStart {
    if is_absolute(path) {
        PathStart::Root
    } else if path.len() > 0 && path[0] == '.' && (path.len() == 1 || path[1] == '/') {
        PathStart::CurDir
    } else {
        PathStart::Plain
    }
}

/// Whether `base` is a prefix of `path`, taken component by component: the
/// components of `base` are the first components of `path`, and both begin
/// alike. A `base` without any component is a prefix of every path.
pub open spec fn path_starts_with(path: Seq<char>, base: Seq<char>) -> bool {
    let components = normal_components(path);
    let prefix = normal_components(base);
    &&& prefix.len() <= components.len()
    &&& components.take(prefix.len() as int) == prefix
    &&& (path_start(base) == path_start(path) || (path_start(base) == PathStart::Plain
        && prefix.len() == 0))
}

/// Whether a path can name an entry of a repository: it is free of NUL and
/// begins with a component of its own, which is neither `.` nor `..`.
pub open spec fn is_repo_path(path: Seq<char>) -> bool {
    let first = path.take(index_of(path, '/') as int);
    &&& nul_free(path)
    &&& path.len() > 0
    &&& path[0] != '/'
    &&& first != seq!['.']
    &&& first != seq!['.', '.']
}

/// Whether the path can name an entry of a repository.
pub fn can_name_entry(file_path: &str) -> (named: bool)
    ensures
        named == is_repo_path(file_path@),
{
    let chars = chars_of(file_path);
    if chars.len() == 0 || chars[0] == '/' || !is_nul_free(chars.as_slice()) {
        return false;
    }
    let end: usize = find_char(chars.as_slice(), 0, '/');
    let ghost first = chars@.take(end as int);
    proof {
        assert(chars@.skip(0) =~= chars@);
        assert(chars@.subrange(0, end as int) =~= first);
    }
    let dot: [char; 1] = ['.'];
    let dots: [char; 2] = ['.', '.'];
    proof {
        assert(dot@ =~= seq!['.']);
        assert(dots@ =~= seq!['.', '.']);
    }
    !range_is(chars.as_slice(), 0, end, dot.as_slice()) && !range_is(
        chars.as_slice(),
        0,
        end,
        dots.as_slice(),
    )
}

/// How the path begins.
pub fn start_of(chars: &[char]) -> (start: PathStart)
    ensures
        start == path_start(chars@),
{
    if chars.len() > 0 && chars[0] == '/' {
        PathStart::Root
    } else if chars.len() > 0 && chars[0] == '.' && (chars.len() == 1 || chars[1] == '/') {
        PathStart::CurDir
    } else {
        PathStart::Plain
    }
}

/// Whether `a[from_a..to_a]` and `b[from_b..to_b]` hold the same text.
fn ranges_equal(a: &[char], from_a: usize, to_a: usize, b: &[char], from_b: usize, to_b: usize) -> (same:
    bool)
    requires
        from_a <= to_a <= a@.len(),
        from_b <= to_b <= b@.len(),
    ensures
        same == (a@.subrange(from_a as int, to_a as int) == b@.subrange(from_b as int, to_b as int)),
{
    let ghost x = a@.subrange(from_a as int, to_a as int);
    let ghost y = b@.subrange(from_b as int, to_b as int);
    if to_a - from_a != to_b - from_b {
        assert(x.len() != y.len());
        return false;
    }
    let len: usize = to_a - from_a;
    let mut i: usize = 0;
    while i < len
        invariant
            i <= len,
            len == to_a - from_a,
            len == to_b - from_b,
            from_a <= to_a <= a@.len(),
            from_b <= to_b <= b@.len(),
            x == a@.subrange(from_a as int, to_a as int),
            y == b@.subrange(from_b as int, to_b as int),
            forall|j: int| 0 <= j < i ==> x[j] == y[j],
        decreases len - i,
    {
        if a[from_a + i] != b[from_b + i] {
            assert(x[i as int] != y[i as int]);
            return false;
        }
        i = i + 1;
    }
    assert(x =~= y);
    true
}

/// Whether `base` is a prefix of `path`, taken component by component.
pub fn starts_with_path(path: &str, base: &str) -> (within: bool)
    ensures
        within == path_starts_with(path@, base@),
{
    let p = chars_of(path);
    let b = chars_of(base);
    let p_ranges = component_ranges(p.as_slice());
    let b_ranges = component_ranges(b.as_slice());
    let p_start = start_of(p.as_slice());
    let b_start = start_of(b.as_slice());
    let ghost components = normal_components(path@);
    let ghost prefix = normal_components(base@);
    if b_ranges.len() > p_ranges.len() {
        return false;
    }
    if !(b_start == p_start || (b_start == PathStart::Plain && b_ranges.len() == 0)) {
        return false;
    }
    let mut i: usize = 0;
    while i < b_ranges.len()
        invariant
            i <= b_ranges@.len() <= p_ranges@.len(),
            p@ == path@,
            b@ == base@,
            components == normal_components(path@),
            prefix == normal_components(base@),
            ranges_cut(p@, p_ranges@, components),
            ranges_cut(b@, b_ranges@, prefix),
            forall|j: int| 0 <= j < i ==> components[j] == prefix[j],
        decreases b_ranges@.len() - i,
    {
        let (pf, pt) = p_ranges[i];
        let (bf, bt) = b_ranges[i];
        if !ranges_equal(p.as_slice(), pf, pt, b.as_slice(), bf, bt) {
            assert(components.take(prefix.len() as int)[i as int] != prefix[i as int]);
            return false;
        }
        i = i + 1;
    }
    assert(components.take(prefix.len() as int) =~= prefix);
    true
}

/// Accepts a resolved path that lies in the working directory `workdir`,
/// itself resolved, and refuses one that lies outside.
pub fn ensure_within(workdir: &str, resolved: &str) -> (checked: Result<(), CoreError>)
    ensures
        checked is Ok <==> path_starts_with(resolved@, workdir@),
        checked matches Err(e) ==> e@ == CoreErrorView::InvalidPath(escape_reason()),
{
    if starts_with_path(resolved, workdir) {
        Ok(())
    } else {
        Err(CoreError::InvalidPath("Path traversal detected: path escapes repository".to_owned()))
    }
}

/// The components of a path as index pairs into its characters.
pub fn component_ranges(chars: &[char]) -> (ranges: Vec<(usize, usize)>)
    ensures
        ranges_cut(chars@, ranges@, normal_components(chars@)),
{
    let mut ranges: Vec<(usize, usize)> = Vec::new();
    let ghost mut done: Seq<Seq<char>> = Seq::empty();
    let mut start: usize = 0;
    proof {
        assert(chars@.skip(0) =~= chars@);
        assert(done + normal_components(chars@) =~= normal_components(chars@));
    }
    while start < chars.len()
        invariant
            start <= chars@.len(),
            ranges_cut(chars@, ranges@, done),
            normal_components(chars@) == done + normal_components(chars@.skip(start as int)),
        decreases chars@.len() - start,
    {
        let end: usize = find_char(chars, start, '/');
        let ghost rest = chars@.skip(start as int);
        let ghost head = rest.take(end - start);
        proof {
            lemma_index_of(rest, '/');
            assert(head =~= chars@.subrange(start as int, end as int));
            if end < chars@.len() {
                assert(rest.skip(end - start + 1) =~= chars@.skip(end + 1));
            }
        }
        let is_dot = end - start == 1 && chars[start] == '.';
        proof {
            if is_dot {
                assert(head =~= seq!['.']);
            } else if head == seq!['.'] {
                assert(head[0] == '.');
            }
        }
        let next: usize = if end < chars.len() {
            end + 1
        } else {
            end
        };
        proof {
            if end == chars@.len() {
                assert(normal_components(chars@.skip(next as int)) =~= Seq::<Seq<char>>::empty());
            }
        }
        if end > start && !is_dot {
            ranges.push((start, end));
            proof {
                assert(done + (seq![head] + normal_components(chars@.skip(next as int))) =~= done.push(
                    head,
                ) + normal_components(chars@.skip(next as int)));
                done = done.push(head);
            }
        }
        start = next;
    }
    proof {
        assert(normal_components(chars@.skip(start as int)) =~= Seq::<Seq<char>>::empty());
        assert(done + Seq::<Seq<char>>::empty() =~= done);
    }
    ranges
}

/// The file name of a path: its final component, unless that is `..`.
pub fn path_file_name(path: &str) -> (name: Option<String>)
    ensures
        name.deep_view() == file_name(path@),
{
    let chars = chars_of(path);
    let ranges = component_ranges(chars.as_slice());
    if ranges.len() == 0 {
        return None;
    }
    let (from, to) = ranges[ranges.len() - 1];
    let ghost last = normal_components(path@).last();
    assert(chars@.subrange(from as int, to as int) == last);
    let dots: [char; 2] = ['.', '.'];
    if range_is(chars.as_slice(), from, to, dots.as_slice()) {
        assert(dots@ =~= seq!['.', '.']);
        return None;
    }
    assert(dots@ =~= seq!['.', '.']);
    Some(string_from_chars(chars.as_slice(), from, to))
}

/// The extension of a file name: what follows its last dot.
pub fn name_extension(name: &str) -> (ext: Option<String>)
    ensures
        ext.deep_view() == extension_of(name@),
{
    let chars = chars_of(name);
    let mut k: usize = chars.len();
    while k > 0 && chars[k - 1] != '.'
        invariant
            k <= chars@.len(),
            forall|i: int| k <= i < chars@.len() ==> chars@[i] != '.',
        decreases k,
    {
        k = k - 1;
    }
    proof {
        lemma_after_last_is(chars@, '.', k as int);
    }
    if k <= 1 {
        None
    } else {
        let ext = string_from_chars(chars.as_slice(), k, chars.len());
        assert(chars@.subrange(k as int, chars@.len() as int) =~= chars@.skip(k as int));
        Some(ext)
    }
}

} // verus!
