use cargo_shipit::path::{
    ensure_trailing_separator, expand_home_dir, has_trailing_separator, is_relative, join_path,
    parent_dir, starts_with_home,
};
use std::path::Path;

fn std_parent(p: &str) -> Option<String> {
    Path::new(p).parent().map(|d| d.to_string_lossy().to_string())
}

fn std_join(base: &str, rel: &str) -> String {
    Path::new(base).join(rel).to_string_lossy().to_string()
}

const SAMPLES: [&str; 34] = [
    "",
    "/",
    "//",
    "///",
    ".",
    "..",
    "./",
    "./.",
    "/.",
    "/..",
    "a",
    "a/",
    "a/b",
    "a/b/",
    "a//b",
    "a/./b",
    "a/b/.",
    "a/b/./",
    "a/..",
    "./a",
    "./a/b",
    "../a",
    "/a",
    "/a/b",
    "/a/b/",
    "/a//b//",
    "/home/u/proj/shipit.json",
    "shipit.json",
    "conf/shipit.json",
    ".hidden",
    "a.",
    "a/.b",
    "~/x",
    "/a/./.",
];

#[test]
fn parent_of_a_file_in_a_directory() {
    assert_eq!(parent_dir("/home/u/proj/shipit.json"), Some("/home/u/proj".to_string()));
}

#[test]
fn parent_of_a_bare_file_name_is_empty() {
    assert_eq!(parent_dir("shipit.json"), Some(String::new()));
}

#[test]
fn root_and_empty_path_have_no_parent() {
    assert_eq!(parent_dir("/"), None);
    assert_eq!(parent_dir(""), None);
}

#[test]
fn parent_ignores_trailing_separators_and_dots() {
    assert_eq!(parent_dir("a/b/"), Some("a".to_string()));
    assert_eq!(parent_dir("a//b"), Some("a".to_string()));
    assert_eq!(parent_dir("a/b/."), Some("a".to_string()));
    assert_eq!(parent_dir("./a"), Some(".".to_string()));
    assert_eq!(parent_dir("/a"), Some("/".to_string()));
}

#[test]
fn parent_agrees_with_the_standard_library() {
    for p in SAMPLES.iter() {
        assert_eq!(parent_dir(p), std_parent(p), "parent of {:?}", p);
    }
}

#[test]
fn relative_agrees_with_the_standard_library() {
    for p in SAMPLES.iter() {
        assert_eq!(is_relative(p), Path::new(p).is_relative(), "is_relative of {:?}", p);
    }
}

#[test]
fn join_agrees_with_the_standard_library() {
    for base in SAMPLES.iter() {
        for rel in SAMPLES.iter() {
            assert_eq!(join_path(base, rel), std_join(base, rel), "join of {:?} and {:?}", base, rel);
        }
    }
}

#[test]
fn join_inserts_exactly_one_separator() {
    assert_eq!(join_path("/home/u/proj", "build"), "/home/u/proj/build");
    assert_eq!(join_path("/home/u/proj/", "build"), "/home/u/proj/build");
    assert_eq!(join_path("", "build"), "build");
}

#[test]
fn join_with_an_absolute_path_replaces_the_base() {
    assert_eq!(join_path("/home/u", "/etc/key"), "/etc/key");
}

#[test]
fn relative_and_absolute_paths() {
    assert!(is_relative("build"));
    assert!(is_relative(""));
    assert!(is_relative("~/key"));
    assert!(!is_relative("/build"));
}

#[test]
fn trailing_separator_is_added_once() {
    assert_eq!(ensure_trailing_separator("/p/target".to_string()), "/p/target/");
    assert_eq!(ensure_trailing_separator("/p/target/".to_string()), "/p/target/");
    assert_eq!(ensure_trailing_separator("C:\\out\\".to_string()), "C:\\out\\");
    assert_eq!(ensure_trailing_separator(String::new()), "/");
}

#[test]
fn trailing_separator_detection() {
    assert!(has_trailing_separator("a/"));
    assert!(has_trailing_separator("a\\"));
    assert!(!has_trailing_separator("a"));
    assert!(!has_trailing_separator(""));
}

#[test]
fn home_prefix_detection_and_expansion() {
    assert!(starts_with_home("~/.ssh/id_rsa"));
    assert!(!starts_with_home("~"));
    assert!(!starts_with_home("~user/key"));
    assert!(!starts_with_home("/~/key"));
    assert_eq!(expand_home_dir("~/.ssh/id_rsa", "/home/u"), "/home/u/.ssh/id_rsa");
    assert_eq!(expand_home_dir("~/", "/root"), "/root/");
}

#[test]
fn expansion_leaves_other_paths_alone() {
    assert_eq!(expand_home_dir("keys/id", "/home/u"), "keys/id");
    assert_eq!(expand_home_dir("~", "/home/u"), "~");
    assert_eq!(expand_home_dir("", "/home/u"), "");
}

#[test]
fn a_name_joined_to_a_directory_has_the_directory_as_parent() {
    for dir in ["/home/u/proj", "conf", ".", "..", "/a/b.d", "a/.."] {
        for name in ["shipit.json", "x", "..", ".hidden", "a."] {
            let joined = join_path(dir, name);
            assert_eq!(joined, format!("{}/{}", dir, name));
            assert_eq!(parent_dir(joined.as_str()), Some(dir.to_string()));
        }
    }
    assert_eq!(parent_dir("//name"), Some("/".to_string()));
}
