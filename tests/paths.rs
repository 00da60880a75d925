use cargo_open::path::{absolutize, cargo_home, compose_source_path, dash_join, join};

#[test]
fn join_puts_one_separator_between() {
    assert_eq!(join("a", "b"), "a/b");
    assert_eq!(join("a/", "b"), "a/b");
    assert_eq!(join("", "b"), "b");
}

#[test]
fn join_with_absolute_part_replaces_base() {
    assert_eq!(join("/a", "/b/c"), "/b/c");
}

#[test]
fn absolutize_relative_and_absolute() {
    assert_eq!(absolutize("/work/proj", "Cargo.toml"), "/work/proj/Cargo.toml");
    assert_eq!(absolutize("/work/proj", "/x/Cargo.toml"), "/x/Cargo.toml");
}

#[test]
fn cache_root_prefers_override() {
    assert_eq!(cargo_home("/work", Some("/opt/cargo"), Some("/home/u")), Some("/opt/cargo".to_string()));
    assert_eq!(cargo_home("/work", Some("rel"), Some("/home/u")), Some("/work/rel".to_string()));
}

#[test]
fn cache_root_falls_back_to_home() {
    assert_eq!(cargo_home("/work", None, Some("/home/u")), Some("/home/u/.cargo".to_string()));
    assert_eq!(cargo_home("/work", Some(""), Some("/home/u")), Some("/home/u/.cargo".to_string()));
    assert_eq!(cargo_home("/work", None, None), None);
    assert_eq!(cargo_home("/work", Some(""), Some("")), None);
}

#[test]
fn dash_join_names() {
    assert_eq!(dash_join("foo", "1.2.3"), "foo-1.2.3");
}

#[test]
fn source_path_layout() {
    let p = compose_source_path("/home/u/.cache", "example.com", "1ecc6299db9ec823", "foo", "1.2.3");
    assert_eq!(p, "/home/u/.cache/registry/src/example.com-1ecc6299db9ec823/foo-1.2.3");
    assert!(!p.contains("//"));
    assert!(!p.ends_with('/'));
}

#[test]
fn source_path_root_with_trailing_separator() {
    let p = compose_source_path("/home/u/.cache/", "github.com", "abc", "serde", "1.0.0");
    assert_eq!(p, "/home/u/.cache/registry/src/github.com-abc/serde-1.0.0");
}
