use minishell::paths::{join_path, pop_path, resolve_dotted, split_on};

#[test]
fn split_keeps_empty_fields() {
    let fields = split_on("a::b", ':');
    assert_eq!(fields, vec![String::from("a"), String::from(""), String::from("b")]);
}

#[test]
fn split_of_empty_is_one_empty_field() {
    let fields = split_on("", ':');
    assert_eq!(fields, vec![String::from("")]);
}

#[test]
fn split_search_path() {
    let fields = split_on("/usr/bin:/bin", ':');
    assert_eq!(fields, vec![String::from("/usr/bin"), String::from("/bin")]);
}

#[test]
fn join_inserts_separator() {
    assert_eq!(join_path("/usr/bin", "ls"), "/usr/bin/ls");
}

#[test]
fn join_after_trailing_slash() {
    assert_eq!(join_path("/", "x"), "/x");
}

#[test]
fn join_with_empty_directory() {
    assert_eq!(join_path("", "x"), "x");
}

#[test]
fn join_with_absolute_name() {
    assert_eq!(join_path("/d", "/abs"), "/abs");
}

#[test]
fn pop_removes_last_component() {
    assert_eq!(pop_path("/a/b/c"), "/a/b");
}

#[test]
fn pop_stops_at_root() {
    assert_eq!(pop_path("/a"), "/");
    assert_eq!(pop_path("/"), "/");
}

#[test]
fn pop_of_relative_component_is_empty() {
    assert_eq!(pop_path("a"), "");
    assert_eq!(pop_path(""), "");
}

#[test]
fn pop_ignores_trailing_slash() {
    assert_eq!(pop_path("/a/b/"), "/a");
}

#[test]
fn resolve_double_dot() {
    assert_eq!(resolve_dotted("/a/b/c", ".."), "/a/b");
}

#[test]
fn resolve_single_dot_stays() {
    assert_eq!(resolve_dotted("/a", "."), "/a");
}

#[test]
fn resolve_climbs_twice() {
    assert_eq!(resolve_dotted("/a/b", "../.."), "/");
}

#[test]
fn resolve_skips_empty_segments() {
    assert_eq!(resolve_dotted("/a/b", ".//c"), "/a/b/c");
}

#[test]
fn resolve_mixed_segments() {
    assert_eq!(resolve_dotted("/a", "./x/../y"), "/a/y");
}
