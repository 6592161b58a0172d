use cargo_tako::path::{extension_of, find_after_last, join_path, last_segment_of};
use std::path::Path;

fn cs(s: &str) -> Vec<char> {
    s.chars().collect()
}

fn st(v: &[char]) -> String {
    v.iter().collect()
}

#[test]
fn join_path_exact() {
    assert_eq!(join_path("/home/dev", ".cache"), "/home/dev/.cache");
    assert_eq!(join_path("/home/dev/", ".cache"), "/home/dev/.cache");
    assert_eq!(join_path("", "target"), "target");
    assert_eq!(join_path("a", ""), "a/");
    assert_eq!(join_path("a", "/b"), "/b");
    assert_eq!(join_path("/", "b"), "/b");
    assert_eq!(join_path("a", "b/c"), "a/b/c");
    assert_eq!(join_path("", ""), "");
}

#[test]
fn join_path_agrees_with_the_system() {
    let parts = ["", "a", "a/", "/", "/a", "a/b", "../x", ".cache", "/abs/p", "x.so"];
    for base in parts {
        for part in parts {
            let expected = Path::new(base).join(part);
            assert_eq!(join_path(base, part), expected.to_str().unwrap(), "{base:?} {part:?}");
        }
    }
}

#[test]
fn after_last_gives_index_past_the_last_match() {
    assert_eq!(find_after_last(&cs("a/b/c"), '/'), 4);
    assert_eq!(find_after_last(&cs("abc"), '/'), 0);
    assert_eq!(find_after_last(&cs("abc/"), '/'), 4);
    assert_eq!(find_after_last(&cs(""), '/'), 0);
}

#[test]
fn extension_exact() {
    let cases: [(&str, Option<&str>); 12] = [
        ("target/release/foo.so", Some("so")),
        ("foo.tar.bz2", Some("bz2")),
        ("foo", None),
        (".so", None),
        ("dir/.so", None),
        ("a.b/c", None),
        ("a.", Some("")),
        ("", None),
        ("dir.d/lib.dylib", Some("dylib")),
        ("x.dll", Some("dll")),
        ("..a", Some("a")),
        ("a/b.so/", None),
    ];
    for (path, ext) in cases {
        assert_eq!(extension_of(&cs(path)).map(|e| st(&e)), ext.map(|e| e.to_string()), "{path:?}");
    }
}

#[test]
fn extension_agrees_with_the_system_for_plain_files() {
    for path in ["t/foo.so", "foo.tar.bz2", "foo", ".so", "d/.so", "a.b/c", "a.", "x.dll", "..a"] {
        let expected = Path::new(path).extension().map(|e| e.to_str().unwrap().to_string());
        assert_eq!(extension_of(&cs(path)).map(|e| st(&e)), expected, "{path:?}");
    }
}

#[test]
fn last_segment_exact() {
    assert_eq!(st(&last_segment_of(&cs("/home/dev/my-contract"))), "my-contract");
    assert_eq!(st(&last_segment_of(&cs("/home/dev/my-contract/"))), "my-contract");
    assert_eq!(st(&last_segment_of(&cs("name"))), "name");
    assert_eq!(st(&last_segment_of(&cs("/"))), "");
    assert_eq!(st(&last_segment_of(&cs(""))), "");
    assert_eq!(st(&last_segment_of(&cs("a/.."))), "..");
}
