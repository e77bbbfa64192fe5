//! Repository status: which paths differ between the committed snapshot, the
//! index and the working tree, and how.
//!
//! The repository gives one record per path, with its status bits and the
//! paths of its changes. A record can show a change in the index and another
//! in the working tree, and then stands in both lists. A file that is new in
//! the working tree is listed as untracked, unless its record is listed as
//! staged.

use crate::error::CoreError;
use crate::repo::{
    discover_repository, git_error, repository_statuses, status_bits, status_head_to_index,
    status_index_to_workdir, status_list, status_path, statuses_len, DeltaPaths, DeltaPathsView,
    StatusQuery, StatusRecord, StatusRecordView,
};
use crate::text::{decode_utf8_lossy, utf8_lossy};
use crate::types::{FileEntry, FileEntryKind, FileEntryView, GitStatus, GitStatusView};
use vstd::prelude::*;

verus! {

/// The file is new in the index.
pub const INDEX_NEW: u32 = 0x1;

/// The file is modified in the index.
pub const INDEX_MODIFIED: u32 = 0x2;

/// The file is deleted from the index.
pub const INDEX_DELETED: u32 = 0x4;

/// The file is renamed in the index.
pub const INDEX_RENAMED: u32 = 0x8;

/// The file has another type in the index.
pub const INDEX_TYPECHANGE: u32 = 0x10;

/// The file is new in the working tree.
pub const WT_NEW: u32 = 0x80;

/// The file is modified in the working tree.
pub const WT_MODIFIED: u32 = 0x100;

/// The file is deleted from the working tree.
pub const WT_DELETED: u32 = 0x200;

/// The file has another type in the working tree.
pub const WT_TYPECHANGE: u32 = 0x400;

/// The file is renamed in the working tree.
pub const WT_RENAMED: u32 = 0x800;

/// The file is in conflict.
pub const CONFLICTED: u32 = 0x8000;

/// Whether all bits of `flag` are set in `bits`.
pub open spec fn has_flag(bits: u32, flag: u32) -> bool {
    bits & flag == flag
}

/// How a path with the given status bits is listed. Among the index bits
/// the order of precedence is new, modified, deleted, renamed, type change.
/// The working-tree bits follow the same order, and a path that is only
/// marked as conflicted is listed as such.
pub open spec fn status_kind(bits: u32, staged: bool) -> Option<FileEntryKind> {
    if staged {
        if has_flag(bits, INDEX_NEW) {
            Some(FileEntryKind::Added)
        } else if has_flag(bits, INDEX_MODIFIED) {
            Some(FileEntryKind::Modified)
        } else if has_flag(bits, INDEX_DELETED) {
            Some(FileEntryKind::Deleted)
        } else if has_flag(bits, INDEX_RENAMED) {
            Some(FileEntryKind::Renamed)
        } else if has_flag(bits, INDEX_TYPECHANGE) {
            Some(FileEntryKind::Typechange)
        } else {
            None
        }
    } else if has_flag(bits, WT_NEW) {
        Some(FileEntryKind::Untracked)
    } else if has_flag(bits, WT_MODIFIED) {
        Some(FileEntryKind::Modified)
    } else if has_flag(bits, WT_DELETED) {
        Some(FileEntryKind::Deleted)
    } else if has_flag(bits, WT_RENAMED) {
        Some(FileEntryKind::Renamed)
    } else if has_flag(bits, WT_TYPECHANGE) {
        Some(FileEntryKind::Typechange)
    } else if has_flag(bits, CONFLICTED) {
        Some(FileEntryKind::Conflicted)
    } else {
        None
    }
}

/// The path of a record, empty where the repository gave none.
pub open spec fn record_path(record: StatusRecordView) -> Seq<char> {
    match record.path {
        Some(path) => path,
        None => Seq::empty(),
    }
}

/// An entry at the record's own path.
pub open spec fn plain_entry(record: StatusRecordView, kind: FileEntryKind) -> FileEntryView {
    FileEntryView { path: record_path(record), old_path: None, kind }
}

/// A path as text, where the repository gave one.
pub open spec fn path_text(bytes: Option<Seq<u8>>) -> Option<Seq<char>> {
    match bytes {
        Some(b) => Some(utf8_lossy(b)),
        None => None,
    }
}

/// An entry with the paths of a rename: the new path of the change, or the
/// record's own path where the change has none, and the old path of the
/// change.
pub open spec fn renamed_entry(
    record: StatusRecordView,
    delta: Option<DeltaPathsView>,
    kind: FileEntryKind,
) -> FileEntryView {
    match delta {
        Some(paths) => FileEntryView {
            path: match path_text(paths.new_path) {
                Some(path) => path,
                None => record_path(record),
            },
            old_path: path_text(paths.old_path),
            kind,
        },
        None => FileEntryView { path: record_path(record), old_path: None, kind },
    }
}

/// The entry of a record in the staged list, if it has one.
pub open spec fn staged_entry(record: StatusRecordView) -> Option<FileEntryView> {
    match status_kind(record.bits, true) {
        None => None,
        Some(kind) => Some(
            if has_flag(record.bits, INDEX_RENAMED) {
                renamed_entry(record, record.head_to_index, kind)
            } else {
                plain_entry(record, kind)
            },
        ),
    }
}

/// The entry of a record in the unstaged list, if it has one.
pub open spec fn unstaged_entry(record: StatusRecordView) -> Option<FileEntryView> {
    match status_kind(record.bits, false) {
        None => None,
        Some(FileEntryKind::Untracked) => None,
        Some(kind) => Some(
            if has_flag(record.bits, WT_RENAMED) {
                renamed_entry(record, record.index_to_workdir, kind)
            } else {
                plain_entry(record, kind)
            },
        ),
    }
}

/// The entry of a record in the untracked list, if it has one: the file is
/// new in the working tree and the record has no entry in the staged list.
pub open spec fn untracked_entry(record: StatusRecordView) -> Option<FileEntryView> {
    if has_flag(record.bits, WT_NEW) && staged_entry(record) is None {
        Some(plain_entry(record, FileEntryKind::Untracked))
    } else {
        None
    }
}

/// The status that a sequence of records amounts to. Each list keeps the
/// order of the records.
pub open spec fn collect_status(records: Seq<StatusRecordView>) -> GitStatusView {
    GitStatusView {
        staged: records.filter_map(|r: StatusRecordView| staged_entry(r)),
        unstaged: records.filter_map(|r: StatusRecordView| unstaged_entry(r)),
        untracked: records.filter_map(|r: StatusRecordView| untracked_entry(r)),
    }
}

/// The paths that the entries of a record carry.
pub open spec fn entry_paths(record: StatusRecordView) -> Set<Seq<char>> {
    Set::new(
        |path: Seq<char>|
            (staged_entry(record) matches Some(e) && e.path == path) || (unstaged_entry(
                record,
            ) matches Some(e) && e.path == path) || (untracked_entry(record) matches Some(e)
                && e.path == path),
    )
}

/// Whether no path is carried by the entries of two records.
pub open spec fn paths_apart(records: Seq<StatusRecordView>) -> bool {
    forall|i: int, j: int, path: Seq<char>|
        0 <= i < records.len() && 0 <= j < records.len() && i != j && #[trigger] entry_paths(
            records[i],
        ).contains(path) ==> !#[trigger] entry_paths(records[j]).contains(path)
}

/// A record has an entry in the untracked list only where it has none in
/// the other two lists.
pub proof fn lemma_untracked_alone(record: StatusRecordView)
    ensures
        untracked_entry(record) is Some ==> staged_entry(record) is None && unstaged_entry(record)
            is None,
{
}

/// The untracked list holds untracked entries only, and the other two lists
/// hold none. A staged entry is never conflicted, an unstaged entry never
/// added.
pub proof fn lemma_lists_by_kind(records: Seq<StatusRecordView>)
    ensures
        forall|i: int|
            0 <= i < collect_status(records).untracked.len() ==> {
                &&& (#[trigger] collect_status(records).untracked[i]).kind
                    == FileEntryKind::Untracked
                &&& collect_status(records).untracked[i].old_path is None
            },
        forall|i: int|
            0 <= i < collect_status(records).staged.len() ==> {
                &&& (#[trigger] collect_status(records).staged[i]).kind != FileEntryKind::Untracked
                &&& collect_status(records).staged[i].kind != FileEntryKind::Conflicted
            },
        forall|i: int|
            0 <= i < collect_status(records).unstaged.len() ==> {
                &&& (#[trigger] collect_status(records).unstaged[i]).kind
                    != FileEntryKind::Untracked
                &&& collect_status(records).unstaged[i].kind != FileEntryKind::Added
            },
    decreases records.len(),
{
    if records.len() > 0 {
        lemma_lists_by_kind(records.drop_last());
    }
}

/// An entry of a list made by `filter_map` comes from an element of the
/// sequence that was filtered.
proof fn lemma_entry_source(
    records: Seq<StatusRecordView>,
    pick: spec_fn(StatusRecordView) -> Option<FileEntryView>,
    k: int,
) -> (i: int)
    requires
        0 <= k < records.filter_map(pick).len(),
    ensures
        0 <= i < records.len(),
        pick(records[i]) == Some(records.filter_map(pick)[k]),
    decreases records.len(),
{
    let front = records.drop_last();
    let front_entries = front.filter_map(pick);
    if k < front_entries.len() {
        let i = lemma_entry_source(front, pick, k);
        assert(front[i] == records[i]);
        match pick(records.last()) {
            Some(e) => {
                assert(records.filter_map(pick) == front_entries + seq![e]);
            },
            None => {},
        }
        i
    } else {
        records.len() - 1
    }
}

/// Where no path is carried by the entries of two records, a path of the
/// untracked list is in neither of the other two lists.
pub proof fn lemma_untracked_paths_apart(records: Seq<StatusRecordView>)
    requires
        paths_apart(records),
    ensures
        forall|u: int, s: int|
            0 <= u < collect_status(records).untracked.len() && 0 <= s < collect_status(
                records,
            ).staged.len() ==> (#[trigger] collect_status(records).untracked[u]).path != (
            #[trigger] collect_status(records).staged[s]).path,
        forall|u: int, s: int|
            0 <= u < collect_status(records).untracked.len() && 0 <= s < collect_status(
                records,
            ).unstaged.len() ==> (#[trigger] collect_status(records).untracked[u]).path != (
            #[trigger] collect_status(records).unstaged[s]).path,
{
    let status = collect_status(records);
    let to_staged = |r: StatusRecordView| staged_entry(r);
    let to_unstaged = |r: StatusRecordView| unstaged_entry(r);
    let to_untracked = |r: StatusRecordView| untracked_entry(r);
    assert forall|u: int, s: int|
        0 <= u < status.untracked.len() && 0 <= s < status.staged.len() implies (
    #[trigger] status.untracked[u]).path != (#[trigger] status.staged[s]).path by {
        let i = lemma_entry_source(records, to_untracked, u);
        let j = lemma_entry_source(records, to_staged, s);
        let path = status.untracked[u].path;
        assert(entry_paths(records[i]).contains(path));
        if status.staged[s].path == path {
            assert(entry_paths(records[j]).contains(path));
            lemma_untracked_alone(records[i]);
        }
    }
    assert forall|u: int, s: int|
        0 <= u < status.untracked.len() && 0 <= s < status.unstaged.len() implies (
    #[trigger] status.untracked[u]).path != (#[trigger] status.unstaged[s]).path by {
        let i = lemma_entry_source(records, to_untracked, u);
        let j = lemma_entry_source(records, to_unstaged, s);
        let path = status.untracked[u].path;
        assert(entry_paths(records[i]).contains(path));
        if status.unstaged[s].path == path {
            assert(entry_paths(records[j]).contains(path));
            lemma_untracked_alone(records[i]);
        }
    }
}

/// A path as text, where the repository gave one.
fn read_path(bytes: &Option<Vec<u8>>) -> (text: Option<String>)
    ensures
        text.deep_view() == path_text(bytes.deep_view()),
{
    match bytes {
        Some(b) => {
            assert(b.deep_view() =~= b@);
            Some(decode_utf8_lossy(b.as_slice()))
        },
        None => None,
    }
}

/// Whether all bits of `flag` are set in `bits`.
fn flag_set(bits: u32, flag: u32) -> (set: bool)
    ensures
        set == has_flag(bits, flag),
{
    bits & flag == flag
}

/// How a path with the given status bits is listed, in the staged list or
/// in the lists of the working tree.
pub fn status_to_file_status(status: u32, staged: bool) -> (kind: Option<FileEntryKind>)
    ensures
        kind == status_kind(status, staged),
{
    if staged {
        if flag_set(status, INDEX_NEW) {
            Some(FileEntryKind::Added)
        } else if flag_set(status, INDEX_MODIFIED) {
            Some(FileEntryKind::Modified)
        } else if flag_set(status, INDEX_DELETED) {
            Some(FileEntryKind::Deleted)
        } else if flag_set(status, INDEX_RENAMED) {
            Some(FileEntryKind::Renamed)
        } else if flag_set(status, INDEX_TYPECHANGE) {
            Some(FileEntryKind::Typechange)
        } else {
            None
        }
    } else if flag_set(status, WT_NEW) {
        Some(FileEntryKind::Untracked)
    } else if flag_set(status, WT_MODIFIED) {
        Some(FileEntryKind::Modified)
    } else if flag_set(status, WT_DELETED) {
        Some(FileEntryKind::Deleted)
    } else if flag_set(status, WT_RENAMED) {
        Some(FileEntryKind::Renamed)
    } else if flag_set(status, WT_TYPECHANGE) {
        Some(FileEntryKind::Typechange)
    } else if flag_set(status, CONFLICTED) {
        Some(FileEntryKind::Conflicted)
    } else {
        None
    }
}

/// The path of a record, empty where the repository gave none.
fn path_of(record: &StatusRecord) -> (path: String)
    ensures
        path@ == record_path(record@),
{
    match &record.path {
        Some(path) => path.clone(),
        None => String::new(),
    }
}

/// An entry with the paths of a rename.
fn entry_of_rename(record: &StatusRecord, delta: &Option<DeltaPaths>, kind: FileEntryKind) -> (entry:
    FileEntry)
    ensures
        entry@ == renamed_entry(record@, delta.deep_view(), kind),
{
    match delta {
        Some(paths) => {
            let path = match read_path(&paths.new_path) {
                Some(path) => path,
                None => path_of(record),
            };
            FileEntry { path, old_path: read_path(&paths.old_path), kind }
        },
        None => FileEntry { path: path_of(record), old_path: None, kind },
    }
}

/// The entry of a record in the staged list, if it has one.
pub fn staged_entry_of(record: &StatusRecord) -> (entry: Option<FileEntry>)
    ensures
        entry.deep_view() == staged_entry(record@),
{
    match status_to_file_status(record.bits, true) {
        None => None,
        Some(kind) => {
            if flag_set(record.bits, INDEX_RENAMED) {
                Some(entry_of_rename(record, &record.head_to_index, kind))
            } else {
                Some(FileEntry { path: path_of(record), old_path: None, kind })
            }
        },
    }
}

/// The entry of a record in the unstaged list, if it has one.
pub fn unstaged_entry_of(record: &StatusRecord) -> (entry: Option<FileEntry>)
    ensures
        entry.deep_view() == unstaged_entry(record@),
{
    match status_to_file_status(record.bits, false) {
        None => None,
        Some(FileEntryKind::Untracked) => None,
        Some(kind) => {
            if flag_set(record.bits, WT_RENAMED) {
                Some(entry_of_rename(record, &record.index_to_workdir, kind))
            } else {
                Some(FileEntry { path: path_of(record), old_path: None, kind })
            }
        },
    }
}

/// The entry of a record in the untracked list, if it has one.
pub fn untracked_entry_of(record: &StatusRecord) -> (entry: Option<FileEntry>)
    ensures
        entry.deep_view() == untracked_entry(record@),
{
    if flag_set(record.bits, WT_NEW) && status_to_file_status(record.bits, true).is_none() {
        Some(FileEntry { path: path_of(record), old_path: None, kind: FileEntryKind::Untracked })
    } else {
        None
    }
}

/// The status that the given records amount to.
pub fn build_status(records: &Vec<StatusRecord>) -> (status: GitStatus)
    ensures
        status@ == collect_status(records.deep_view()),
{
    let ghost all = records.deep_view();
    let ghost to_staged = |r: StatusRecordView| staged_entry(r);
    let ghost to_unstaged = |r: StatusRecordView| unstaged_entry(r);
    let ghost to_untracked = |r: StatusRecordView| untracked_entry(r);
    let mut staged: Vec<FileEntry> = Vec::new();
    let mut unstaged: Vec<FileEntry> = Vec::new();
    let mut untracked: Vec<FileEntry> = Vec::new();
    let mut i: usize = 0;
    proof {
        assert(all.take(0).filter_map(to_staged) =~= staged.deep_view());
        assert(all.take(0).filter_map(to_unstaged) =~= unstaged.deep_view());
        assert(all.take(0).filter_map(to_untracked) =~= untracked.deep_view());
    }
    while i < records.len()
        invariant
            i <= records@.len(),
            all == records.deep_view(),
            to_staged == |r: StatusRecordView| staged_entry(r),
            to_unstaged == |r: StatusRecordView| unstaged_entry(r),
            to_untracked == |r: StatusRecordView| untracked_entry(r),
            staged.deep_view() == all.take(i as int).filter_map(to_staged),
            unstaged.deep_view() == all.take(i as int).filter_map(to_unstaged),
            untracked.deep_view() == all.take(i as int).filter_map(to_untracked),
        decreases records@.len() - i,
    {
        let record = &records[i];
        let ghost prefix = all.take(i as int);
        let ghost next = all.take(i + 1);
        let ghost old_staged = staged.deep_view();
        let ghost old_unstaged = unstaged.deep_view();
        let ghost old_untracked = untracked.deep_view();
        proof {
            assert(next.drop_last() =~= prefix);
            assert(next.last() == record@);
        }
        if let Some(entry) = staged_entry_of(record) {
            staged.push(entry);
            assert(staged.deep_view() =~= old_staged + seq![entry@]);
        }
        if let Some(entry) = unstaged_entry_of(record) {
            unstaged.push(entry);
            assert(unstaged.deep_view() =~= old_unstaged + seq![entry@]);
        }
        if let Some(entry) = untracked_entry_of(record) {
            untracked.push(entry);
            assert(untracked.deep_view() =~= old_untracked + seq![entry@]);
        }
        i = i + 1;
    }
    proof {
        assert(all.take(all.len() as int) =~= all);
    }
    GitStatus { staged, unstaged, untracked }
}

/// What a status query asks of the repository: untracked files, also those
/// in untracked directories, no ignored files, and renames in both
/// comparisons.
pub fn status_query() -> (query: StatusQuery)
    ensures
        query == (StatusQuery {
            include_untracked: true,
            recurse_untracked_dirs: true,
            include_ignored: false,
            renames_head_to_index: true,
            renames_index_to_workdir: true,
        }),
{
    StatusQuery {
        include_untracked: true,
        recurse_untracked_dirs: true,
        include_ignored: false,
        renames_head_to_index: true,
        renames_index_to_workdir: true,
    }
}

/// The records of a status list, in its order.
pub fn read_status_list(statuses: &git2::Statuses<'_>) -> (records: Vec<StatusRecord>)
    ensures
        records.deep_view() == status_list(*statuses),
{
    let ghost list = status_list(*statuses);
    let len: usize = statuses_len(statuses);
    let mut records: Vec<StatusRecord> = Vec::new();
    let mut i: usize = 0;
    proof {
        assert(records.deep_view() =~= list.take(0));
    }
    while i < len
        invariant
            i <= len,
            list == status_list(*statuses),
            len == list.len(),
            records.deep_view() == list.take(i as int),
        decreases len - i,
    {
        let ghost before = records.deep_view();
        let bits: u32 = match status_bits(statuses, i) {
            Some(bits) => bits,
            None => 0,
        };
        let record = StatusRecord {
            path: status_path(statuses, i),
            bits,
            head_to_index: status_head_to_index(statuses, i),
            index_to_workdir: status_index_to_workdir(statuses, i),
        };
        assert(record@ == list[i as int]);
        records.push(record);
        proof {
            assert(records.deep_view() =~= before.push(list[i as int]));
            assert(list.take(i + 1) =~= list.take(i as int).push(list[i as int]));
        }
        i = i + 1;
    }
    proof {
        assert(list.take(len as int) =~= list);
    }
    records
}

/// The status that a status list amounts to.
pub fn status_from_list(statuses: &git2::Statuses<'_>) -> (status: GitStatus)
    ensures
        status@ == collect_status(status_list(*statuses)),
{
    let records = read_status_list(statuses);
    build_status(&records)
}

/// The status of an open repository: the status that the status list of the
/// repository amounts to.
pub fn get_status_with_repo(repo: &git2::Repository) -> (status: Result<GitStatus, CoreError>)
    ensures
        status matches Ok(s) ==> exists|records: Seq<StatusRecordView>|
            s@ == collect_status(records),
        status matches Err(e) ==> e@ is VersionControl,
{
    let statuses = match repository_statuses(repo, status_query()) {
        Ok(statuses) => statuses,
        Err(e) => {
            return Err(git_error(&e));
        },
    };
    let status = status_from_list(&statuses);
    assert(status@ == collect_status(status_list(statuses)));
    Ok(status)
}

/// The status of the repository at or above `repo_path`.
pub fn get_status(repo_path: &str) -> (status: Result<GitStatus, CoreError>)
    ensures
        status matches Ok(s) ==> exists|records: Seq<StatusRecordView>|
            s@ == collect_status(records),
        status matches Err(e) ==> e@ is VersionControl,
{
    let repo = match discover_repository(repo_path) {
        Ok(repo) => repo,
        Err(e) => {
            return Err(e);
        },
    };
    get_status_with_repo(&repo)
}

} // verus!
