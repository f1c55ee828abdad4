use plugin_repository::security::{
    calculate_checksum, is_safe_path, sanitize_path, validate_filename,
};

#[test]
fn test_calculate_checksum() {
    let content = b"Hello, World!";
    let checksum = calculate_checksum(content);
    assert_eq!(checksum.len(), 64);
}

#[test]
fn checksum_of_known_content() {
    assert_eq!(
        calculate_checksum(b"Hello, World!"),
        "dffd6021bb2bd5b0af676290809ec3a53191dd81c7f70a4b28688a362182986f"
    );
    assert_eq!(
        calculate_checksum(b""),
        "e3b0c44298fc1c149afbf4c8996fb92427ae41e4649b934ca495991b7852b855"
    );
}

#[test]
fn test_sanitize_path_valid() {
    let result = sanitize_path("test/file.txt");
    assert!(result.is_ok());
}

#[test]
fn test_sanitize_path_traversal() {
    let result = sanitize_path("../etc/passwd");
    assert!(result.is_err());
    assert!(result.unwrap_err().contains("traversal"));
}

#[test]
fn test_sanitize_path_absolute() {
    let result = sanitize_path("/etc/passwd");
    assert!(result.is_err());
}

#[test]
fn sanitize_path_hands_the_path_back() {
    assert_eq!(sanitize_path("test/file.txt"), Ok("test/file.txt".to_string()));
    assert_eq!(sanitize_path("a/./b"), Ok("a/./b".to_string()));
    assert_eq!(sanitize_path("a..b/c"), Ok("a..b/c".to_string()));
    assert_eq!(sanitize_path(""), Ok("".to_string()));
}

#[test]
fn sanitize_path_finds_parent_anywhere() {
    assert_eq!(
        sanitize_path("a/b/../c"),
        Err("Path traversal detected: '..' not allowed".to_string())
    );
    assert_eq!(sanitize_path("a/.."), Err("Path traversal detected: '..' not allowed".to_string()));
    assert_eq!(sanitize_path("/a"), Err("Absolute paths are not allowed".to_string()));
}

#[test]
fn test_validate_filename_valid() {
    assert!(validate_filename("test.txt").is_ok());
    assert!(validate_filename("my-file_123.json").is_ok());
}

#[test]
fn test_validate_filename_invalid() {
    assert!(validate_filename("").is_err());
    assert!(validate_filename("test<file>.txt").is_err());
    assert!(validate_filename("file|name.txt").is_err());
}

#[test]
fn test_validate_filename_reserved() {
    assert!(validate_filename("CON").is_err());
    assert!(validate_filename("PRN").is_err());
    assert!(validate_filename("AUX").is_err());
}

#[test]
fn filename_complaints_are_exact() {
    assert_eq!(validate_filename(""), Err("Filename cannot be empty".to_string()));
    assert_eq!(validate_filename("a?b"), Err("Filename contains invalid characters".to_string()));
    assert_eq!(validate_filename("a\0b"), Err("Filename contains invalid characters".to_string()));
    assert_eq!(validate_filename("lpt9"), Err("'lpt9' is a reserved filename".to_string()));
    assert_eq!(validate_filename("Com1"), Err("'Com1' is a reserved filename".to_string()));
    assert_eq!(validate_filename("CONSOLE"), Ok(()));
    assert_eq!(validate_filename("COM10"), Ok(()));
}

#[test]
fn safe_paths_lie_in_the_base_directory() {
    assert!(is_safe_path(Some("/srv/data"), Some("/srv/data/a/b.txt")));
    assert!(is_safe_path(Some("/srv/data"), Some("/srv/data")));
    assert!(is_safe_path(Some("/srv/data/"), Some("/srv//data/./a")));
    assert!(!is_safe_path(Some("/srv/data"), Some("/srv/database/a")));
    assert!(!is_safe_path(Some("/srv/data"), Some("/srv")));
    assert!(!is_safe_path(Some("/srv/data"), Some("srv/data/a")));
    assert!(!is_safe_path(None, Some("/srv/data/a")));
    assert!(!is_safe_path(Some("/srv/data"), None));
}
