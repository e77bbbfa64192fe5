use git2::Status;
use tinydiff::repo::{DeltaPaths, StatusRecord};
use tinydiff::status::{
    build_status, staged_entry_of, status_to_file_status, unstaged_entry_of, untracked_entry_of,
    CONFLICTED, INDEX_DELETED, INDEX_MODIFIED, INDEX_NEW, INDEX_RENAMED, INDEX_TYPECHANGE,
    WT_DELETED, WT_MODIFIED, WT_NEW, WT_RENAMED, WT_TYPECHANGE,
};
use tinydiff::types::{FileEntry, FileEntryKind};

fn record(path: &str, status: Status) -> StatusRecord {
    StatusRecord {
        path: Some(path.to_string()),
        bits: status.bits(),
        head_to_index: None,
        index_to_workdir: None,
    }
}

#[test]
fn the_status_bits_are_those_of_the_repository() {
    assert_eq!(INDEX_NEW, Status::INDEX_NEW.bits());
    assert_eq!(INDEX_MODIFIED, Status::INDEX_MODIFIED.bits());
    assert_eq!(INDEX_DELETED, Status::INDEX_DELETED.bits());
    assert_eq!(INDEX_RENAMED, Status::INDEX_RENAMED.bits());
    assert_eq!(INDEX_TYPECHANGE, Status::INDEX_TYPECHANGE.bits());
    assert_eq!(WT_NEW, Status::WT_NEW.bits());
    assert_eq!(WT_MODIFIED, Status::WT_MODIFIED.bits());
    assert_eq!(WT_DELETED, Status::WT_DELETED.bits());
    assert_eq!(WT_TYPECHANGE, Status::WT_TYPECHANGE.bits());
    assert_eq!(WT_RENAMED, Status::WT_RENAMED.bits());
    assert_eq!(CONFLICTED, Status::CONFLICTED.bits());
}

fn entry(path: &str, old_path: Option<&str>, kind: FileEntryKind) -> FileEntry {
    FileEntry { path: path.to_string(), old_path: old_path.map(String::from), kind }
}

#[test]
fn no_bits_give_no_kind() {
    assert_eq!(status_to_file_status(0, true), None);
    assert_eq!(status_to_file_status(0, false), None);
}

#[test]
fn each_index_bit_has_its_kind() {
    assert_eq!(
        status_to_file_status(Status::INDEX_NEW.bits(), true),
        Some(FileEntryKind::Added)
    );
    assert_eq!(
        status_to_file_status(Status::INDEX_MODIFIED.bits(), true),
        Some(FileEntryKind::Modified)
    );
    assert_eq!(
        status_to_file_status(Status::INDEX_DELETED.bits(), true),
        Some(FileEntryKind::Deleted)
    );
    assert_eq!(
        status_to_file_status(Status::INDEX_RENAMED.bits(), true),
        Some(FileEntryKind::Renamed)
    );
    assert_eq!(
        status_to_file_status(Status::INDEX_TYPECHANGE.bits(), true),
        Some(FileEntryKind::Typechange)
    );
}

#[test]
fn each_working_tree_bit_has_its_kind() {
    assert_eq!(
        status_to_file_status(Status::WT_NEW.bits(), false),
        Some(FileEntryKind::Untracked)
    );
    assert_eq!(
        status_to_file_status(Status::WT_MODIFIED.bits(), false),
        Some(FileEntryKind::Modified)
    );
    assert_eq!(
        status_to_file_status(Status::WT_DELETED.bits(), false),
        Some(FileEntryKind::Deleted)
    );
    assert_eq!(
        status_to_file_status(Status::WT_RENAMED.bits(), false),
        Some(FileEntryKind::Renamed)
    );
    assert_eq!(
        status_to_file_status(Status::WT_TYPECHANGE.bits(), false),
        Some(FileEntryKind::Typechange)
    );
    assert_eq!(
        status_to_file_status(Status::CONFLICTED.bits(), false),
        Some(FileEntryKind::Conflicted)
    );
}

#[test]
fn index_bits_follow_their_precedence() {
    let all = Status::INDEX_NEW
        | Status::INDEX_MODIFIED
        | Status::INDEX_DELETED
        | Status::INDEX_RENAMED
        | Status::INDEX_TYPECHANGE;
    assert_eq!(status_to_file_status(all.bits(), true), Some(FileEntryKind::Added));
    let all = all - Status::INDEX_NEW;
    assert_eq!(status_to_file_status(all.bits(), true), Some(FileEntryKind::Modified));
    let all = all - Status::INDEX_MODIFIED;
    assert_eq!(status_to_file_status(all.bits(), true), Some(FileEntryKind::Deleted));
    let all = all - Status::INDEX_DELETED;
    assert_eq!(status_to_file_status(all.bits(), true), Some(FileEntryKind::Renamed));
    let all = all - Status::INDEX_RENAMED;
    assert_eq!(status_to_file_status(all.bits(), true), Some(FileEntryKind::Typechange));
}

#[test]
fn working_tree_bits_follow_their_precedence() {
    let all = Status::WT_NEW
        | Status::WT_MODIFIED
        | Status::WT_DELETED
        | Status::WT_RENAMED
        | Status::WT_TYPECHANGE
        | Status::CONFLICTED;
    assert_eq!(status_to_file_status(all.bits(), false), Some(FileEntryKind::Untracked));
    let all = all - Status::WT_NEW;
    assert_eq!(status_to_file_status(all.bits(), false), Some(FileEntryKind::Modified));
    let all = all - Status::WT_MODIFIED;
    assert_eq!(status_to_file_status(all.bits(), false), Some(FileEntryKind::Deleted));
    let all = all - Status::WT_DELETED;
    assert_eq!(status_to_file_status(all.bits(), false), Some(FileEntryKind::Renamed));
    let all = all - Status::WT_RENAMED;
    assert_eq!(status_to_file_status(all.bits(), false), Some(FileEntryKind::Typechange));
    let all = all - Status::WT_TYPECHANGE;
    assert_eq!(status_to_file_status(all.bits(), false), Some(FileEntryKind::Conflicted));
}

#[test]
fn the_two_sides_read_their_own_bits_only() {
    let index_only = Status::INDEX_NEW;
    assert_eq!(status_to_file_status(index_only.bits(), false), None);
    let tree_only = Status::WT_MODIFIED | Status::CONFLICTED;
    assert_eq!(status_to_file_status(tree_only.bits(), true), None);
}

#[test]
fn bits_that_are_not_read_give_no_kind() {
    let other = Status::IGNORED | Status::WT_UNREADABLE;
    assert_eq!(status_to_file_status(other.bits(), true), None);
    assert_eq!(status_to_file_status(other.bits(), false), None);
    assert_eq!(status_to_file_status(0x20 | 0x40 | 0x2000, true), None);
    assert_eq!(
        status_to_file_status((other | Status::WT_DELETED).bits(), false),
        Some(FileEntryKind::Deleted)
    );
}

#[test]
fn a_conflict_is_never_staged() {
    let flags = Status::CONFLICTED;
    assert_eq!(staged_entry_of(&record("c.txt", flags)), None);
    assert_eq!(
        unstaged_entry_of(&record("c.txt", flags)),
        Some(entry("c.txt", None, FileEntryKind::Conflicted))
    );
    assert_eq!(untracked_entry_of(&record("c.txt", flags)), None);
}

#[test]
fn an_untracked_file_is_in_the_untracked_list_only() {
    let flags = Status::WT_NEW;
    let r = record("new_file.txt", flags);
    assert_eq!(staged_entry_of(&r), None);
    assert_eq!(unstaged_entry_of(&r), None);
    assert_eq!(
        untracked_entry_of(&r),
        Some(entry("new_file.txt", None, FileEntryKind::Untracked))
    );
}

#[test]
fn a_staged_rename_takes_its_paths_from_the_change() {
    let flags = Status::INDEX_RENAMED;
    let r = StatusRecord {
        path: Some("old_name.txt".to_string()),
        bits: flags.bits(),
        head_to_index: Some(DeltaPaths {
            new_path: Some(b"new_name.txt".to_vec()),
            old_path: Some(b"old_name.txt".to_vec()),
        }),
        index_to_workdir: None,
    };
    assert_eq!(
        staged_entry_of(&r),
        Some(entry("new_name.txt", Some("old_name.txt"), FileEntryKind::Renamed))
    );
}

#[test]
fn a_rename_without_a_new_path_keeps_the_own_path() {
    let flags = Status::WT_RENAMED;
    let r = StatusRecord {
        path: Some("own.txt".to_string()),
        bits: flags.bits(),
        head_to_index: None,
        index_to_workdir: Some(DeltaPaths { new_path: None, old_path: Some(b"was.txt".to_vec()) }),
    };
    assert_eq!(
        unstaged_entry_of(&r),
        Some(entry("own.txt", Some("was.txt"), FileEntryKind::Renamed))
    );
    let bare = StatusRecord { index_to_workdir: None, ..r };
    assert_eq!(unstaged_entry_of(&bare), Some(entry("own.txt", None, FileEntryKind::Renamed)));
}

#[test]
fn a_rename_with_a_stronger_bit_keeps_the_paths_of_the_rename() {
    let flags = Status::INDEX_MODIFIED | Status::INDEX_RENAMED;
    let r = StatusRecord {
        path: Some("a.txt".to_string()),
        bits: flags.bits(),
        head_to_index: Some(DeltaPaths {
            new_path: Some(b"b.txt".to_vec()),
            old_path: Some(b"a.txt".to_vec()),
        }),
        index_to_workdir: None,
    };
    assert_eq!(staged_entry_of(&r), Some(entry("b.txt", Some("a.txt"), FileEntryKind::Modified)));
}

#[test]
fn the_paths_of_a_change_are_read_for_renames_only() {
    let flags = Status::INDEX_MODIFIED;
    let r = StatusRecord {
        path: Some("a.txt".to_string()),
        bits: flags.bits(),
        head_to_index: Some(DeltaPaths {
            new_path: Some(b"b.txt".to_vec()),
            old_path: Some(b"c.txt".to_vec()),
        }),
        index_to_workdir: None,
    };
    assert_eq!(staged_entry_of(&r), Some(entry("a.txt", None, FileEntryKind::Modified)));
}

#[test]
fn a_record_without_a_path_has_the_empty_path() {
    let flags = Status::INDEX_NEW;
    let r = StatusRecord { path: None, bits: flags.bits(), head_to_index: None, index_to_workdir: None };
    assert_eq!(staged_entry_of(&r), Some(entry("", None, FileEntryKind::Added)));
}

#[test]
fn build_status_sorts_records_into_the_three_lists() {
    let records = vec![
        record("staged.txt", Status::INDEX_NEW),
        record("both.txt", Status::INDEX_MODIFIED | Status::WT_MODIFIED),
        record("untracked.txt", Status::WT_NEW),
        record("clean.txt", Status::empty()),
        record("gone.txt", Status::WT_DELETED),
        record("back.txt", Status::INDEX_DELETED | Status::WT_NEW),
    ];
    let status = build_status(&records);
    assert_eq!(
        status.staged,
        vec![
            entry("staged.txt", None, FileEntryKind::Added),
            entry("both.txt", None, FileEntryKind::Modified),
            entry("back.txt", None, FileEntryKind::Deleted),
        ]
    );
    assert_eq!(
        status.unstaged,
        vec![
            entry("both.txt", None, FileEntryKind::Modified),
            entry("gone.txt", None, FileEntryKind::Deleted),
        ]
    );
    assert_eq!(status.untracked, vec![entry("untracked.txt", None, FileEntryKind::Untracked)]);
}

#[test]
fn a_path_with_a_staged_entry_is_not_listed_as_untracked() {
    let flags = Status::INDEX_DELETED | Status::WT_NEW;
    let r = record("back.txt", flags);
    assert_eq!(staged_entry_of(&r), Some(entry("back.txt", None, FileEntryKind::Deleted)));
    assert_eq!(unstaged_entry_of(&r), None);
    assert_eq!(untracked_entry_of(&r), None);
}

#[test]
fn untracked_paths_are_in_no_other_list() {
    let mut records = Vec::new();
    let bits = [false, true];
    let mut n = 0;
    for index_new in bits {
        for index_deleted in bits {
            for wt_new in bits {
                for wt_modified in bits {
                    for conflicted in bits {
                        let mut flags = Status::empty();
                        flags.set(Status::INDEX_NEW, index_new);
                        flags.set(Status::INDEX_DELETED, index_deleted);
                        flags.set(Status::WT_NEW, wt_new);
                        flags.set(Status::WT_MODIFIED, wt_modified);
                        flags.set(Status::CONFLICTED, conflicted);
                        records.push(record(&format!("file{}.txt", n), flags));
                        n += 1;
                    }
                }
            }
        }
    }
    let status = build_status(&records);
    assert!(!status.untracked.is_empty());
    for untracked in &status.untracked {
        assert_eq!(untracked.kind, FileEntryKind::Untracked);
        assert!(status.staged.iter().all(|e| e.path != untracked.path));
        assert!(status.unstaged.iter().all(|e| e.path != untracked.path));
    }
}

#[test]
fn build_status_of_no_records_is_empty() {
    let status = build_status(&vec![]);
    assert!(status.staged.is_empty());
    assert!(status.unstaged.is_empty());
    assert!(status.untracked.is_empty());
}
