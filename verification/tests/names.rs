use tuifs::names::{file_name_of_path, is_safe_name, join_path, make_file_name, split_base_ext};

#[test]
fn safe_names_are_plain_file_names() {
    assert!(is_safe_name("report.txt"));
    assert!(is_safe_name("noext"));
    assert!(is_safe_name("..x"));
    assert!(is_safe_name("x.."));
    assert!(is_safe_name(".hidden"));
}

#[test]
fn unsafe_names_are_refused() {
    assert!(!is_safe_name(""));
    assert!(!is_safe_name("."));
    assert!(!is_safe_name(".."));
    assert!(!is_safe_name("../x"));
    assert!(!is_safe_name("a/b"));
    assert!(!is_safe_name("/etc/passwd"));
    assert!(!is_safe_name("x/"));
}

#[test]
fn file_name_of_path_takes_last_component() {
    assert_eq!(file_name_of_path("/tmp/report.txt"), "report.txt");
    assert_eq!(file_name_of_path("a/b/c.png"), "c.png");
    assert_eq!(file_name_of_path("report.txt"), "report.txt");
    assert_eq!(file_name_of_path("/tmp/"), "");
}

#[test]
fn split_base_ext_splits_at_last_dot() {
    assert_eq!(
        split_base_ext("report.txt"),
        Some(("report".to_string(), "txt".to_string()))
    );
    assert_eq!(
        split_base_ext("archive.tar.gz"),
        Some(("archive.tar".to_string(), "gz".to_string()))
    );
}

#[test]
fn split_base_ext_needs_a_dot() {
    assert_eq!(split_base_ext("noext"), None);
    assert_eq!(split_base_ext(""), None);
}

#[test]
fn make_file_name_joins_with_dot() {
    assert_eq!(make_file_name("report", "txt"), "report.txt");
    assert_eq!(make_file_name("", "txt"), ".txt");
}

#[test]
fn join_path_joins_with_slash() {
    assert_eq!(join_path("/srv/storage", "report.txt"), "/srv/storage/report.txt");
}

#[test]
fn split_then_join_restores_the_name() {
    for name in ["report.txt", "archive.tar.gz", "a.b", ".hidden"] {
        let (stem, ext) = split_base_ext(name).unwrap();
        assert_eq!(make_file_name(&stem, &ext), name);
    }
}
