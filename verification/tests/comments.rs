use tinydiff::comments::{
    comments_file_path, comments_lock_path, comments_temp_path, delete_comment,
    get_comments_for_file, join_path, save_comment,
};
use tinydiff::error::CoreError;
use tinydiff::types::{Comment, CommentAnchor, CommentCollection};

fn make_comment(id: &str, body: &str) -> Comment {
    Comment {
        id: id.to_string(),
        file_path: "test.rs".to_string(),
        anchor: CommentAnchor::Pinned { line: 10 },
        body: body.to_string(),
        resolved: false,
        created_at: 1000,
        updated_at: 1000,
    }
}

fn comment_in(id: &str, file_path: &str, anchor: CommentAnchor) -> Comment {
    Comment {
        id: id.to_string(),
        file_path: file_path.to_string(),
        anchor,
        body: format!("about {}", id),
        resolved: false,
        created_at: 1,
        updated_at: 2,
    }
}

fn ids(collection: &CommentCollection) -> Vec<String> {
    collection.comments.iter().map(|c| c.id.clone()).collect()
}

#[test]
fn comments_test_comment_crud_operations() {
    let mut loaded = CommentCollection::default();

    let comment_v1 = make_comment("c1", "first version");
    save_comment(&mut loaded, comment_v1, None).unwrap();
    assert_eq!(loaded.comments.len(), 1);
    assert_eq!(loaded.comments[0].body, "first version");

    let comment_v2 = make_comment("c1", "updated version");
    save_comment(&mut loaded, comment_v2, None).unwrap();
    assert_eq!(loaded.comments.len(), 1);
    assert_eq!(loaded.comments[0].body, "updated version");

    let deleted = delete_comment(&mut loaded, "c1");
    assert!(deleted);
    assert!(loaded.comments.is_empty());
}

#[test]
fn comments_test_delete_returns_false_for_missing_id() {
    let mut collection = CommentCollection::default();

    let result = delete_comment(&mut collection, "nonexistent");
    assert!(!result);

    save_comment(&mut collection, make_comment("c1", "test"), None).unwrap();
    let result = delete_comment(&mut collection, "other_id");
    assert!(!result);
}

#[test]
fn comments_test_save_rejects_path_traversal() {
    let mut collection = CommentCollection::default();

    let mut comment = make_comment("c1", "test");
    comment.file_path = "../etc/passwd".to_string();

    let result = save_comment(&mut collection, comment, None);
    assert!(result.is_err());
    assert!(matches!(result, Err(CoreError::InvalidPath(_))));
}

#[test]
fn comments_test_save_rejects_absolute_path() {
    let mut collection = CommentCollection::default();

    let mut comment = make_comment("c1", "test");
    comment.file_path = "/etc/passwd".to_string();

    let result = save_comment(&mut collection, comment, None);
    assert!(result.is_err());
    assert!(matches!(result, Err(CoreError::InvalidPath(_))));
}

#[test]
fn test_save_with_file_contents_computes_context() {
    let mut loaded = CommentCollection::default();

    let file_contents = "line1\nline2\nline3\nline4";
    let mut comment = make_comment("c1", "test");
    comment.anchor = CommentAnchor::Pinned { line: 2 };

    save_comment(&mut loaded, comment, Some(file_contents)).unwrap();

    assert!(loaded.comments[0].anchor.context().is_some());
    assert_eq!(
        loaded.comments[0].anchor.context(),
        Some("line1\nline2\nline3")
    );
    assert_eq!(
        loaded.comments[0].anchor,
        CommentAnchor::Anchored { line: 2, context: "line1\nline2\nline3".to_string() }
    );
}

#[test]
fn rejected_save_leaves_the_collection_unchanged() {
    let mut collection = CommentCollection::default();
    save_comment(&mut collection, make_comment("c1", "kept"), None).unwrap();
    let before = collection.clone();

    let mut bad = make_comment("c1", "replaced");
    bad.file_path = "a/../../b".to_string();
    assert!(save_comment(&mut collection, bad, Some("text")).is_err());
    assert_eq!(collection, before);
}

#[test]
fn deleting_a_missing_id_leaves_the_collection_unchanged() {
    let mut collection = CommentCollection::default();
    save_comment(&mut collection, make_comment("a", "one"), None).unwrap();
    save_comment(&mut collection, make_comment("b", "two"), None).unwrap();
    let before = collection.clone();

    assert!(!delete_comment(&mut collection, "c"));
    assert_eq!(collection, before);
    assert!(!delete_comment(&mut collection, ""));
    assert_eq!(collection, before);
}

#[test]
fn save_without_contents_pins_the_anchor() {
    let mut collection = CommentCollection::default();
    let comment = comment_in(
        "c1",
        "a.rs",
        CommentAnchor::Anchored { line: 4, context: "x\ny\nz".to_string() },
    );
    save_comment(&mut collection, comment, None).unwrap();
    assert_eq!(collection.comments[0].anchor, CommentAnchor::Pinned { line: 4 });

    let orphan = comment_in(
        "c2",
        "a.rs",
        CommentAnchor::Orphaned { last_known_line: 9, context: "x\ny\nz".to_string() },
    );
    save_comment(&mut collection, orphan, None).unwrap();
    assert_eq!(collection.comments[1].anchor, CommentAnchor::Pinned { line: 9 });
}

#[test]
fn save_with_contents_and_line_zero_keeps_the_anchor() {
    let mut collection = CommentCollection::default();
    let comment = comment_in("c1", "a.rs", CommentAnchor::Pinned { line: 0 });
    save_comment(&mut collection, comment, Some("one\ntwo")).unwrap();
    assert_eq!(collection.comments[0].anchor, CommentAnchor::Pinned { line: 0 });
}

#[test]
fn save_with_contents_takes_the_window_at_the_edges() {
    let mut collection = CommentCollection::default();
    let text = "first\nsecond\nthird\n";
    save_comment(
        &mut collection,
        comment_in("top", "a.rs", CommentAnchor::Pinned { line: 1 }),
        Some(text),
    )
    .unwrap();
    save_comment(
        &mut collection,
        comment_in("bottom", "a.rs", CommentAnchor::Pinned { line: 3 }),
        Some(text),
    )
    .unwrap();
    save_comment(
        &mut collection,
        comment_in("beyond", "a.rs", CommentAnchor::Pinned { line: 7 }),
        Some(text),
    )
    .unwrap();
    assert_eq!(collection.comments[0].anchor.context(), Some("\nfirst\nsecond"));
    assert_eq!(collection.comments[1].anchor.context(), Some("second\nthird\n"));
    assert_eq!(collection.comments[2].anchor.context(), Some("\n\n"));
    assert_eq!(collection.comments[2].anchor.line(), 7);
}

#[test]
fn save_replaces_in_place_and_appends_new_ids() {
    let mut collection = CommentCollection::default();
    save_comment(&mut collection, make_comment("a", "a1"), None).unwrap();
    save_comment(&mut collection, make_comment("b", "b1"), None).unwrap();
    save_comment(&mut collection, make_comment("c", "c1"), None).unwrap();
    save_comment(&mut collection, make_comment("b", "b2"), None).unwrap();
    assert_eq!(ids(&collection), vec!["a", "b", "c"]);
    assert_eq!(collection.comments[1].body, "b2");
    assert_eq!(collection.comments[0].body, "a1");
    assert_eq!(collection.comments[2].body, "c1");
}

#[test]
fn save_replaces_only_the_first_of_equal_ids() {
    let mut collection = CommentCollection {
        comments: vec![make_comment("x", "one"), make_comment("x", "two")],
    };
    save_comment(&mut collection, make_comment("x", "new"), None).unwrap();
    assert_eq!(collection.comments.len(), 2);
    assert_eq!(collection.comments[0].body, "new");
    assert_eq!(collection.comments[1].body, "two");
}

#[test]
fn delete_removes_every_comment_with_the_id() {
    let mut collection = CommentCollection {
        comments: vec![
            make_comment("x", "one"),
            make_comment("y", "keep"),
            make_comment("x", "two"),
        ],
    };
    assert!(delete_comment(&mut collection, "x"));
    assert_eq!(ids(&collection), vec!["y"]);
}

#[test]
fn sequences_of_saves_and_deletes_keep_one_entry_per_id() {
    let mut collection = CommentCollection::default();
    save_comment(&mut collection, make_comment("a", "a1"), None).unwrap();
    save_comment(&mut collection, make_comment("b", "b1"), None).unwrap();
    save_comment(&mut collection, make_comment("a", "a2"), None).unwrap();
    assert!(delete_comment(&mut collection, "b"));
    save_comment(&mut collection, make_comment("c", "c1"), None).unwrap();
    save_comment(&mut collection, make_comment("b", "b2"), None).unwrap();
    save_comment(&mut collection, make_comment("a", "a3"), None).unwrap();
    assert!(delete_comment(&mut collection, "c"));
    assert!(!delete_comment(&mut collection, "c"));

    assert_eq!(ids(&collection), vec!["a", "b"]);
    assert_eq!(collection.comments[0].body, "a3");
    assert_eq!(collection.comments[1].body, "b2");
}

#[test]
fn comments_for_file_filters_by_exact_path() {
    let collection = CommentCollection {
        comments: vec![
            comment_in("1", "src/a.rs", CommentAnchor::Pinned { line: 1 }),
            comment_in("2", "src/b.rs", CommentAnchor::Pinned { line: 2 }),
            comment_in("3", "src/a.rs", CommentAnchor::Pinned { line: 3 }),
            comment_in("4", "src/a.rs.bak", CommentAnchor::Pinned { line: 4 }),
            comment_in("5", "SRC/a.rs", CommentAnchor::Pinned { line: 5 }),
        ],
    };
    let shown = get_comments_for_file(collection, "src/a.rs", "text").unwrap();
    let shown_ids: Vec<&str> = shown.iter().map(|c| c.id.as_str()).collect();
    assert_eq!(shown_ids, vec!["1", "3"]);
}

#[test]
fn comments_for_file_reanchors_against_the_text() {
    let collection = CommentCollection {
        comments: vec![
            comment_in(
                "moved",
                "a.rs",
                CommentAnchor::Anchored { line: 2, context: "alpha\nbeta\ngamma".to_string() },
            ),
            comment_in("pinned", "a.rs", CommentAnchor::Pinned { line: 2 }),
            comment_in(
                "lost",
                "a.rs",
                CommentAnchor::Anchored { line: 7, context: "no\nsuch\nlines".to_string() },
            ),
            comment_in(
                "found",
                "a.rs",
                CommentAnchor::Orphaned {
                    last_known_line: 9,
                    context: "beta\ngamma\n".to_string(),
                },
            ),
        ],
    };
    let shown = get_comments_for_file(collection, "a.rs", "new_line\nalpha\nbeta\ngamma").unwrap();
    assert_eq!(shown.len(), 4);
    assert_eq!(
        shown[0].anchor,
        CommentAnchor::Anchored { line: 3, context: "alpha\nbeta\ngamma".to_string() }
    );
    assert_eq!(shown[1].anchor, CommentAnchor::Pinned { line: 2 });
    assert_eq!(
        shown[2].anchor,
        CommentAnchor::Orphaned { last_known_line: 7, context: "no\nsuch\nlines".to_string() }
    );
    assert_eq!(
        shown[3].anchor,
        CommentAnchor::Anchored { line: 4, context: "beta\ngamma\n".to_string() }
    );
    assert_eq!(shown[0].body, "about moved");
    assert_eq!(shown[0].created_at, 1);
    assert_eq!(shown[0].updated_at, 2);
}

#[test]
fn comments_for_file_rejects_unsafe_paths() {
    let collection = CommentCollection::default();
    assert!(matches!(
        get_comments_for_file(collection.clone(), "../secret", ""),
        Err(CoreError::InvalidPath(_))
    ));
    assert!(matches!(
        get_comments_for_file(collection.clone(), "/etc/passwd", ""),
        Err(CoreError::InvalidPath(_))
    ));
    assert_eq!(get_comments_for_file(collection, "ok.rs", ""), Ok(vec![]));
}

#[test]
fn comment_files_live_in_the_metadata_directory() {
    assert_eq!(comments_file_path("/repo"), "/repo/.tinydiff/comments.json");
    assert_eq!(comments_temp_path("/repo"), "/repo/.tinydiff/comments.json.tmp");
    assert_eq!(comments_lock_path("/repo"), "/repo/.tinydiff/comments.lock");
    assert_eq!(comments_file_path("/repo/"), "/repo/.tinydiff/comments.json");
    assert_eq!(comments_file_path(""), ".tinydiff/comments.json");
    assert_eq!(comments_file_path("rel/repo"), "rel/repo/.tinydiff/comments.json");
}

#[test]
fn join_path_agrees_with_std_path() {
    let bases = ["", "/", "a", "a/", "/a/b", "/a/b/", "."];
    let names = [".tinydiff", "comments.json", "x/y"];
    for base in bases {
        for name in names {
            let expected = std::path::Path::new(base).join(name);
            assert_eq!(join_path(base, name), expected.to_str().unwrap(), "for {:?}", base);
        }
    }
}
