use volnita::git::get_repo_name;
use volnita::text::{find_sub, split_char, tokenize};
use volnita::volnita::{build_recent_descriptor, repo_root_path};

#[test]
fn split_keeps_empty_pieces() {
    assert_eq!(split_char("a,b", ','), vec!["a".to_string(), "b".to_string()]);
    assert_eq!(split_char("", ','), vec!["".to_string()]);
    assert_eq!(
        split_char(",a,", ','),
        vec!["".to_string(), "a".to_string(), "".to_string()]
    );
}

#[test]
fn tokenize_drops_empty_pieces() {
    assert_eq!(tokenize("  a  bc "), vec!["a".to_string(), "bc".to_string()]);
    assert_eq!(tokenize(""), Vec::<String>::new());
    assert_eq!(tokenize("   "), Vec::<String>::new());
}

#[test]
fn tokenize_splits_on_any_whitespace() {
    assert_eq!(
        tokenize("a\tb\r\nc"),
        vec!["a".to_string(), "b".to_string(), "c".to_string()]
    );
}

#[test]
fn find_sub_reports_first_occurrence() {
    assert_eq!(find_sub("abcabc", "ca"), Some(2));
    assert_eq!(find_sub("abc", "zz"), None);
    assert_eq!(find_sub("abc", ""), Some(0));
    assert_eq!(find_sub("ab", "abc"), None);
}

#[test]
fn repo_name_is_second_to_last_segment() {
    assert_eq!(get_repo_name("/home/user/project/"), "project");
    assert_eq!(get_repo_name("a/b"), "a");
    assert_eq!(get_repo_name("plain"), "UNNAMED");
    assert_eq!(get_repo_name(""), "UNNAMED");
}

#[test]
fn repo_root_stops_before_git_dir() {
    assert_eq!(repo_root_path("/home/user/project/.git/"), "/home/user/project/");
    assert_eq!(repo_root_path("/home/user/project"), "/home/user/project");
    assert_eq!(repo_root_path(".git/x/.git/"), "");
}

#[test]
fn descriptor_carries_path_name_and_url() {
    let d = build_recent_descriptor(
        "/home/user/project/".to_string(),
        Some("https://example.com/r.git".to_string()),
    );
    assert_eq!(d.path, "/home/user/project/");
    assert_eq!(d.name, "project");
    assert_eq!(d.repo_url, "https://example.com/r.git");
    let d = build_recent_descriptor("/home/user/project/".to_string(), None);
    assert_eq!(d.repo_url, "");
}
