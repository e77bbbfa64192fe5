use tinydiff::diff::{build_file_diff, change_type_of, DiffHunkBuilder};
use tinydiff::repo::{DiffEvent, HunkHeader};
use tinydiff::types::{DiffContent, DiffLine, FileDiff, HunkRange, LineChangeType};

fn header(old_start: u32, old_lines: u32, new_start: u32, new_lines: u32) -> HunkHeader {
    let text = format!("@@ -{},{} +{},{} @@\n", old_start, old_lines, new_start, new_lines);
    HunkHeader::new(old_start, old_lines, new_start, new_lines, text.into_bytes())
}

fn step(hunk: Option<HunkHeader>, origin: char, content: &str) -> DiffEvent {
    DiffEvent {
        new_path: Some(b"file.txt".to_vec()),
        old_path: Some(b"file.txt".to_vec()),
        is_binary: false,
        hunk,
        origin,
        content: content.as_bytes().to_vec(),
        old_line_no: None,
        new_line_no: None,
    }
}

fn numbered(
    hunk: Option<HunkHeader>,
    origin: char,
    content: &str,
    old_line_no: Option<u32>,
    new_line_no: Option<u32>,
) -> DiffEvent {
    DiffEvent { old_line_no, new_line_no, ..step(hunk, origin, content) }
}

fn ranges(diff: &FileDiff) -> Vec<HunkRange> {
    diff.hunks.iter().map(|h| h.range()).collect()
}

#[test]
fn no_steps_give_an_empty_diff_of_the_path_asked_for() {
    let diff = build_file_diff("asked.txt", vec![]);
    assert_eq!(diff.path, "asked.txt");
    assert_eq!(diff.old_path, None);
    assert!(!diff.is_binary);
    assert!(diff.hunks.is_empty());
}

#[test]
fn a_patch_becomes_one_hunk_with_its_lines() {
    let h = header(1, 3, 1, 3);
    let events = vec![
        step(None, 'F', "diff --git a/file.txt b/file.txt\n"),
        step(Some(h.clone()), 'H', "@@ -1,3 +1,3 @@\n"),
        numbered(Some(h.clone()), ' ', "line 1\n", Some(1), Some(1)),
        numbered(Some(h.clone()), '-', "line 2\n", Some(2), None),
        numbered(Some(h.clone()), '+', "MODIFIED\n", None, Some(2)),
        numbered(Some(h.clone()), ' ', "line 3\n", Some(3), Some(3)),
    ];
    let diff = build_file_diff("file.txt", events);
    assert_eq!(diff.path, "file.txt");
    assert_eq!(diff.old_path, None);
    assert_eq!(diff.hunks.len(), 1);
    let hunk = &diff.hunks[0];
    assert_eq!(hunk.old_start, 1);
    assert_eq!(hunk.old_lines, 3);
    assert_eq!(hunk.new_start, 1);
    assert_eq!(hunk.new_lines, 3);
    assert_eq!(hunk.header, "@@ -1,3 +1,3 @@");
    assert_eq!(
        hunk.lines,
        vec![
            DiffLine {
                change_type: LineChangeType::Context,
                content: "line 1".to_string(),
                old_line_no: Some(1),
                new_line_no: Some(1),
            },
            DiffLine {
                change_type: LineChangeType::Deletion,
                content: "line 2".to_string(),
                old_line_no: Some(2),
                new_line_no: None,
            },
            DiffLine {
                change_type: LineChangeType::Addition,
                content: "MODIFIED".to_string(),
                old_line_no: None,
                new_line_no: Some(2),
            },
            DiffLine {
                change_type: LineChangeType::Context,
                content: "line 3".to_string(),
                old_line_no: Some(3),
                new_line_no: Some(3),
            },
        ]
    );
}

#[test]
fn equal_headers_in_a_row_stay_one_hunk() {
    let h = header(1, 2, 1, 2);
    let events = vec![
        step(Some(h.clone()), 'H', "@@\n"),
        step(Some(h.clone()), ' ', "a\n"),
        step(Some(h.clone()), ' ', "b\n"),
        step(Some(h.clone()), '+', "c\n"),
    ];
    let diff = build_file_diff("file.txt", events);
    assert_eq!(diff.hunks.len(), 1);
    assert_eq!(diff.hunks[0].lines.len(), 3);
}

#[test]
fn a_different_header_opens_a_new_hunk() {
    let first = header(1, 6, 1, 6);
    let second = header(15, 6, 15, 6);
    let events = vec![
        step(Some(first.clone()), '-', "line 1\n"),
        step(Some(first.clone()), '+', "CHANGED 1\n"),
        step(Some(second.clone()), '-', "line 20\n"),
        step(Some(second.clone()), '+', "CHANGED 20\n"),
    ];
    let diff = build_file_diff("file.txt", events);
    assert_eq!(ranges(&diff), vec![first.range, second.range]);
    assert_eq!(diff.hunks[0].lines.len(), 2);
    assert_eq!(diff.hunks[1].lines.len(), 2);
    assert_eq!(diff.hunks[1].lines[0].content, "line 20");
}

#[test]
fn headers_that_differ_in_one_number_are_different() {
    let base = header(1, 2, 3, 4);
    let others = [header(9, 2, 3, 4), header(1, 9, 3, 4), header(1, 2, 9, 4), header(1, 2, 3, 9)];
    for other in others {
        let events = vec![
            step(Some(base.clone()), ' ', "a\n"),
            step(Some(other.clone()), ' ', "b\n"),
        ];
        let diff = build_file_diff("file.txt", events);
        assert_eq!(ranges(&diff), vec![base.range, other.range]);
    }
}

#[test]
fn a_header_seen_again_later_opens_a_hunk_again() {
    let a = header(1, 1, 1, 1);
    let b = header(5, 1, 5, 1);
    let events = vec![
        step(Some(a.clone()), ' ', "1\n"),
        step(Some(a.clone()), ' ', "2\n"),
        step(Some(b.clone()), ' ', "3\n"),
        step(Some(a.clone()), ' ', "4\n"),
        step(Some(a.clone()), ' ', "5\n"),
    ];
    let diff = build_file_diff("file.txt", events);
    assert_eq!(ranges(&diff), vec![a.range, b.range, a.range]);
    let counts: Vec<usize> = diff.hunks.iter().map(|h| h.lines.len()).collect();
    assert_eq!(counts, vec![2, 1, 2]);
}

#[test]
fn the_header_text_is_of_the_step_that_opened_the_hunk() {
    let opened = HunkHeader::new(1, 1, 1, 1, b"@@ -1 +1 @@ first \n".to_vec());
    let again = HunkHeader::new(1, 1, 1, 1, b"@@ -1 +1 @@ second\n".to_vec());
    let events = vec![
        step(Some(opened), ' ', "a\n"),
        step(Some(again), ' ', "b\n"),
    ];
    let diff = build_file_diff("file.txt", events);
    assert_eq!(diff.hunks.len(), 1);
    assert_eq!(diff.hunks[0].header, "@@ -1 +1 @@ first");
}

#[test]
fn a_line_without_a_header_goes_to_the_open_hunk() {
    let h = header(1, 1, 1, 1);
    let events = vec![
        step(Some(h.clone()), ' ', "a\n"),
        step(None, '+', "b\n"),
    ];
    let diff = build_file_diff("file.txt", events);
    assert_eq!(diff.hunks.len(), 1);
    assert_eq!(diff.hunks[0].lines.len(), 2);
    assert_eq!(diff.hunks[0].lines[1].content, "b");
}

#[test]
fn lines_before_any_hunk_are_dropped() {
    let h = header(1, 1, 1, 1);
    let events = vec![
        step(None, '+', "early\n"),
        step(None, ' ', "early too\n"),
        step(Some(h.clone()), '+', "kept\n"),
    ];
    let diff = build_file_diff("file.txt", events);
    assert_eq!(diff.hunks.len(), 1);
    assert_eq!(diff.hunks[0].lines.len(), 1);
    assert_eq!(diff.hunks[0].lines[0].content, "kept");
}

#[test]
fn end_of_file_markers_count_as_context() {
    let h = header(1, 1, 1, 1);
    let marker = "\n\\ No newline at end of file\n";
    let events = vec![
        step(Some(h.clone()), '=', marker),
        step(Some(h.clone()), '>', marker),
        step(Some(h.clone()), '<', marker),
    ];
    let diff = build_file_diff("file.txt", events);
    assert_eq!(diff.hunks[0].lines.len(), 3);
    for line in &diff.hunks[0].lines {
        assert_eq!(line.change_type, LineChangeType::Context);
        assert_eq!(line.content, "\n\\ No newline at end of file");
    }
}

#[test]
fn headers_and_binary_notices_are_no_lines() {
    let h = header(1, 1, 1, 1);
    let events = vec![
        step(Some(h.clone()), 'F', "diff\n"),
        step(Some(h.clone()), 'H', "@@\n"),
        step(Some(h.clone()), 'B', "Binary files differ\n"),
    ];
    let diff = build_file_diff("file.txt", events);
    assert_eq!(diff.hunks.len(), 1);
    assert!(diff.hunks[0].lines.is_empty());
}

#[test]
fn change_type_of_maps_every_sigil() {
    assert_eq!(change_type_of(' '), Some(LineChangeType::Context));
    assert_eq!(change_type_of('+'), Some(LineChangeType::Addition));
    assert_eq!(change_type_of('-'), Some(LineChangeType::Deletion));
    assert_eq!(change_type_of('='), Some(LineChangeType::Context));
    assert_eq!(change_type_of('>'), Some(LineChangeType::Context));
    assert_eq!(change_type_of('<'), Some(LineChangeType::Context));
    assert_eq!(change_type_of('F'), None);
    assert_eq!(change_type_of('H'), None);
    assert_eq!(change_type_of('B'), None);
    assert_eq!(change_type_of('?'), None);
    assert_eq!(change_type_of('\n'), None);
}

#[test]
fn line_text_loses_its_line_feeds_only() {
    let h = header(1, 1, 1, 1);
    let events = vec![
        step(Some(h.clone()), ' ', "plain"),
        step(Some(h.clone()), ' ', "feeds\n\n"),
        step(Some(h.clone()), ' ', "windows\r\n"),
        step(Some(h.clone()), ' ', "  spaced  \n"),
        step(Some(h.clone()), ' ', "\n"),
    ];
    let diff = build_file_diff("file.txt", events);
    let texts: Vec<&str> = diff.hunks[0].lines.iter().map(|l| l.content.as_str()).collect();
    assert_eq!(texts, vec!["plain", "feeds", "windows\r", "  spaced  ", ""]);
}

#[test]
fn bytes_that_are_not_utf8_are_replaced() {
    let h = HunkHeader::new(1, 1, 1, 1, vec![b'@', b'@', 0xff, b' ', b'\n']);
    let mut event = step(Some(h), '+', "");
    event.content = vec![b'a', 0xff, b'b', b'\n'];
    let diff = build_file_diff("file.txt", vec![event]);
    assert_eq!(diff.hunks[0].header, "@@\u{fffd}");
    assert_eq!(diff.hunks[0].lines[0].content, "a\u{fffd}b");
}

#[test]
fn the_path_follows_the_new_side() {
    let mut event = step(None, 'F', "");
    event.new_path = Some(b"renamed.txt".to_vec());
    event.old_path = Some(b"original.txt".to_vec());
    let diff = build_file_diff("asked.txt", vec![event]);
    assert_eq!(diff.path, "renamed.txt");
    assert_eq!(diff.old_path, Some("original.txt".to_string()));
}

#[test]
fn paths_that_are_not_utf8_are_read_with_replacements() {
    let mut event = step(None, 'F', "");
    event.new_path = Some(vec![b'n', 0xff, b'w']);
    event.old_path = Some(vec![b'o', 0xfe, b'd']);
    let diff = build_file_diff("asked.txt", vec![event]);
    assert_eq!(diff.path, "n\u{fffd}w");
    assert_eq!(diff.old_path, Some("o\u{fffd}d".to_string()));
}

#[test]
fn the_path_falls_back_to_the_old_side() {
    let mut event = step(None, 'F', "");
    event.new_path = None;
    event.old_path = Some(b"deleted.txt".to_vec());
    let diff = build_file_diff("asked.txt", vec![event]);
    assert_eq!(diff.path, "deleted.txt");
    assert_eq!(diff.old_path, None);
}

#[test]
fn a_step_without_paths_keeps_the_path() {
    let mut event = step(None, 'F', "");
    event.new_path = None;
    event.old_path = None;
    let diff = build_file_diff("asked.txt", vec![event]);
    assert_eq!(diff.path, "asked.txt");
    assert_eq!(diff.old_path, None);
}

#[test]
fn an_earlier_path_is_kept_once_set() {
    let mut rename = step(None, 'F', "");
    rename.new_path = Some(b"b.txt".to_vec());
    rename.old_path = Some(b"a.txt".to_vec());
    let mut plain = step(None, ' ', "");
    plain.new_path = Some(b"b.txt".to_vec());
    plain.old_path = Some(b"b.txt".to_vec());
    let diff = build_file_diff("b.txt", vec![rename, plain]);
    assert_eq!(diff.path, "b.txt");
    assert_eq!(diff.old_path, Some("a.txt".to_string()));
}

#[test]
fn binary_is_sticky_and_empties_the_hunks() {
    let h = header(1, 1, 1, 1);
    let mut flagged = step(None, 'B', "Binary files differ\n");
    flagged.is_binary = true;
    let events = vec![
        step(Some(h.clone()), '+', "text\n"),
        flagged,
        step(Some(h.clone()), '+', "more\n"),
    ];
    let diff = build_file_diff("image.png", events);
    assert!(diff.is_binary);
    assert!(diff.hunks.is_empty());
    assert_eq!(diff.into_content(), DiffContent::Binary);
}

#[test]
fn content_of_a_text_diff_is_its_hunks() {
    let h = header(1, 1, 1, 1);
    let diff = build_file_diff("a.txt", vec![step(Some(h), '+', "x\n")]);
    let hunks = diff.hunks.clone();
    assert_eq!(diff.into_content(), DiffContent::Text { hunks });
}

#[test]
fn the_builder_takes_steps_one_by_one() {
    let h = header(2, 1, 2, 1);
    let mut builder = DiffHunkBuilder::new("step.txt");
    builder.push(step(Some(h.clone()), '-', "old\n"));
    builder.push(step(Some(h.clone()), '+', "new\n"));
    let diff = builder.finish();
    assert_eq!(diff.path, "file.txt");
    assert_eq!(diff.hunks.len(), 1);
    assert_eq!(diff.hunks[0].range(), h.range);
    assert_eq!(diff.hunks[0].lines.len(), 2);
    let same = build_file_diff(
        "step.txt",
        vec![
            step(Some(h.clone()), '-', "old\n"),
            step(Some(h.clone()), '+', "new\n"),
        ],
    );
    assert_eq!(diff, same);
}

#[test]
fn neighbouring_hunks_never_share_their_numbers() {
    let a = header(1, 1, 1, 1);
    let b = header(2, 2, 2, 2);
    let c = header(3, 3, 3, 3);
    let order = [&a, &a, &b, &b, &b, &a, &c, &c, &a, &a, &b];
    let events: Vec<DiffEvent> =
        order.iter().map(|h| step(Some((*h).clone()), ' ', "x\n")).collect();
    let diff = build_file_diff("file.txt", events);
    assert_eq!(ranges(&diff), vec![a.range, b.range, a.range, c.range, a.range, b.range]);
    for pair in diff.hunks.windows(2) {
        assert_ne!(pair[0].range(), pair[1].range());
    }
    let total: usize = diff.hunks.iter().map(|h| h.lines.len()).sum();
    assert_eq!(total, order.len());
}
