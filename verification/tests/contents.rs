use tinydiff::contents::{
    blob_to_content, bytes_to_content, check_file_size, pair_contents, read_file,
    workdir_or_error, MAX_FILE_SIZE,
};
use tinydiff::error::CoreError;
use tinydiff::types::{FileContent, ReadFileResult};

#[test]
fn text_bytes_become_text() {
    assert_eq!(
        bytes_to_content(b"line 1\nline 2\n"),
        FileContent::Text { contents: "line 1\nline 2\n".to_string() }
    );
    assert_eq!(bytes_to_content(b""), FileContent::Text { contents: String::new() });
}

#[test]
fn bytes_with_nul_are_binary_with_their_length() {
    assert_eq!(bytes_to_content(&[0x00, 0x01, 0x02, 0x03]), FileContent::Binary { size: 4 });
    assert_eq!(bytes_to_content(&[b'a', b'b', 0]), FileContent::Binary { size: 3 });
    assert_eq!(bytes_to_content(&[0]), FileContent::Binary { size: 1 });
}

#[test]
fn bytes_that_are_not_utf8_are_read_with_replacements() {
    let bytes: Vec<u8> = vec![0x48, 0x65, 0x6C, 0x6C, 0x6F, 0xFF, 0xFE];
    assert_eq!(
        bytes_to_content(&bytes),
        FileContent::Text { contents: "Hello\u{FFFD}\u{FFFD}".to_string() }
    );
}

#[test]
fn a_missing_side_has_no_content() {
    assert_eq!(blob_to_content(None), None);
    assert_eq!(
        blob_to_content(Some(b"x".to_vec())),
        Some(FileContent::Text { contents: "x".to_string() })
    );
    assert_eq!(blob_to_content(Some(vec![1, 0])), Some(FileContent::Binary { size: 2 }));
}

#[test]
fn both_sides_carry_the_path_and_its_language() {
    let contents = pair_contents("src/new.ts", None, Some(b"let x = 1;\n".to_vec()));
    assert_eq!(contents.old_file.name, "src/new.ts");
    assert_eq!(contents.new_file.name, "src/new.ts");
    assert_eq!(contents.old_file.lang, Some("typescript".to_string()));
    assert_eq!(contents.new_file.lang, Some("typescript".to_string()));
    assert_eq!(contents.old_file.content, None);
    assert_eq!(
        contents.new_file.content,
        Some(FileContent::Text { contents: "let x = 1;\n".to_string() })
    );
}

#[test]
fn sides_of_an_unknown_language_have_none() {
    let contents = pair_contents("data.bin", Some(vec![0, 1]), None);
    assert_eq!(contents.old_file.lang, None);
    assert_eq!(contents.new_file.lang, None);
    assert_eq!(contents.old_file.content, Some(FileContent::Binary { size: 2 }));
    assert_eq!(contents.new_file.content, None);
}

#[test]
fn fs_test_read_file_text() {
    let content = "const x = 1;\nconst y = 2;\n";
    let result = read_file("/tmp/dir/test.ts", content.as_bytes()).unwrap();

    assert_eq!(result.name, "test.ts");
    assert_eq!(result.contents, content);
    assert_eq!(result.lang, Some("typescript".to_string()));
    assert!(!result.is_binary);
}

#[test]
fn fs_test_read_file_non_utf8() {
    let bytes: Vec<u8> = vec![0x48, 0x65, 0x6C, 0x6C, 0x6F, 0xFF, 0xFE];
    let result = read_file("/tmp/dir/test.txt", &bytes).unwrap();

    assert_eq!(result.name, "test.txt");
    assert!(result.contents.contains('\u{FFFD}'));
    assert!(!result.is_binary);
}

#[test]
fn fs_test_read_file_binary() {
    let bytes: Vec<u8> = vec![0x00, 0x01, 0x02, 0x03];
    let result = read_file("/tmp/dir/test.bin", &bytes).unwrap();

    assert_eq!(result.name, "test.bin");
    assert!(result.contents.is_empty());
    assert!(result.is_binary);
}

#[test]
fn fs_test_read_file_language_hint() {
    let test_cases = [
        ("test.rs", Some("rust".to_string())),
        ("test.py", Some("python".to_string())),
        ("test.tsx", Some("tsx".to_string())),
        ("test.unknown", None),
    ];

    for (filename, expected_lang) in test_cases {
        let file_path = format!("/tmp/dir/{}", filename);
        let result = read_file(&file_path, b"content").unwrap();
        assert_eq!(result.lang, expected_lang, "Failed for {}", filename);
    }
}

#[test]
fn read_file_of_a_path_without_a_name_has_an_empty_name() {
    assert_eq!(
        read_file("/", b"x"),
        Ok(ReadFileResult {
            name: String::new(),
            contents: "x".to_string(),
            lang: None,
            is_binary: false,
        })
    );
}

#[test]
fn the_size_guard_accepts_up_to_fifty_mebibytes() {
    assert_eq!(MAX_FILE_SIZE, 50 * 1024 * 1024);
    assert!(check_file_size("f", 0).is_ok());
    assert!(check_file_size("f", MAX_FILE_SIZE - 1).is_ok());
    assert!(check_file_size("f", MAX_FILE_SIZE).is_ok());
}

#[test]
fn the_size_guard_rejects_larger_files() {
    assert_eq!(
        check_file_size("/data/big.bin", MAX_FILE_SIZE + 1),
        Err(CoreError::Io {
            path: "/data/big.bin".to_string(),
            message: "File too large: 52428801 bytes (max 52428800 bytes)".to_string(),
        })
    );
    assert!(check_file_size("f", u64::MAX).is_err());
}

#[test]
fn read_file_rejects_more_bytes_than_the_guard_allows() {
    let bytes = vec![b'a'; (MAX_FILE_SIZE + 1) as usize];
    assert_eq!(
        read_file("big.txt", &bytes),
        Err(CoreError::Io {
            path: "big.txt".to_string(),
            message: "File too large: 52428801 bytes (max 52428800 bytes)".to_string(),
        })
    );
}

#[test]
fn a_reported_working_directory_is_handed_on() {
    assert_eq!(workdir_or_error(Some("/home/user/repo/".to_string())), Ok("/home/user/repo/".to_string()));
    assert_eq!(workdir_or_error(Some(String::new())), Ok(String::new()));
}

#[test]
fn a_missing_working_directory_is_refused() {
    assert_eq!(
        workdir_or_error(None),
        Err(CoreError::InvalidPath("Repository has no working directory".to_string()))
    );
}

#[test]
fn a_version_control_error_keeps_its_message() {
    assert_eq!(
        CoreError::version_control("could not find repository".to_string()),
        CoreError::VersionControl("could not find repository".to_string())
    );
    assert_eq!(CoreError::version_control(String::new()), CoreError::VersionControl(String::new()));
}
