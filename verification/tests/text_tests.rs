use cargo_tako::text::{
    chars_of, followed_by, digit_char, find_char, find_char_from, has_part, occurs_here, push_all,
    push_decimal, push_hex, push_signed, replace, replace_char, same_chars, same_text, slice_of,
    starts_with, string_of, trim, Strip,
};

fn cs(s: &str) -> Vec<char> {
    s.chars().collect()
}

fn st(v: &[char]) -> String {
    v.iter().collect()
}

#[test]
fn chars_and_back() {
    for s in ["", "a", "héllo wörld", "日本語\n", "a\u{10FFFF}b"] {
        assert_eq!(chars_of(s), cs(s));
        assert_eq!(string_of(&cs(s)), s);
    }
}

#[test]
fn same_text_compares_characters() {
    assert!(same_text("", ""));
    assert!(same_text("v3", "v3"));
    assert!(!same_text("v3", "v4"));
    assert!(!same_text("v3", "v"));
    assert!(!same_text("v", "v3"));
    assert!(!same_text("é", "e"));
    assert!(same_chars(&cs("abc"), &cs("abc")));
    assert!(!same_chars(&cs("abc"), &cs("abd")));
    assert!(!same_chars(&cs("abc"), &cs("ab")));
}

#[test]
fn concat_and_slices() {
    assert_eq!(followed_by("tbpf", "v3"), "tbpfv3");
    assert_eq!(followed_by("", ""), "");
    let mut out = cs("ab");
    push_all(&mut out, &cs("cd"));
    assert_eq!(st(&out), "abcd");
    assert_eq!(st(&slice_of(&cs("hello"), 1, 4)), "ell");
    assert_eq!(st(&slice_of(&cs("hello"), 2, 2)), "");
}

#[test]
fn search_matches_std() {
    let texts = ["", "a", "name = x", "aaa", "abcabc", "/deps/", "x/deps", "a/deps/b.so"];
    let pats = ["", "a", "aa", "abc", "name", "/deps/", "bc", "zzzzzzzzzzzzz"];
    for t in texts {
        for p in pats {
            assert_eq!(has_part(&cs(t), &cs(p)), t.contains(p), "{t:?} contains {p:?}");
            assert_eq!(starts_with(&cs(t), &cs(p)), t.starts_with(p), "{t:?} starts with {p:?}");
        }
    }
    assert!(occurs_here(&cs("abcabc"), &cs("abc"), 3));
    assert!(!occurs_here(&cs("abcabc"), &cs("abc"), 4));
    assert!(!occurs_here(&cs("abc"), &cs("abc"), usize::MAX));
}

#[test]
fn find_char_gives_first_index_or_length() {
    assert_eq!(find_char(&cs("a=b=c"), '='), 1);
    assert_eq!(find_char(&cs("abc"), '='), 3);
    assert_eq!(find_char(&cs(""), '='), 0);
    assert_eq!(find_char_from(&cs("a=b=c"), '=', 2), 3);
    assert_eq!(find_char_from(&cs("a=b=c"), '=', 4), 5);
    assert_eq!(find_char_from(&cs("a=b=c"), '=', 5), 5);
}

#[test]
fn replace_matches_std() {
    let cases = [
        ("", "ab", "x"),
        ("abab", "ab", "x"),
        ("aaa", "aa", "b"),
        ("aaaa", "aa", "a"),
        ("{{project_name}} and {{project_name_snake}}", "{{project_name}}", "Foo"),
        ("{{{{project_name}}}}", "{{project_name}}", "{{project_name}}"),
        ("abc", "abcd", "x"),
        ("abc", "c", ""),
        ("xabc", "abc", "yy"),
    ];
    for (s, pat, to) in cases {
        assert_eq!(st(&replace(&cs(s), &cs(pat), &cs(to))), s.replace(pat, to), "{s:?}");
    }
}

#[test]
fn replace_with_empty_pattern_changes_nothing() {
    assert_eq!(st(&replace(&cs("abc"), &cs(""), &cs("x"))), "abc");
}

#[test]
fn replace_char_matches_std() {
    for s in ["", "my-thing", "a--b-", "no_dash", "-"] {
        assert_eq!(st(&replace_char(&cs(s), '-', '_')), s.replace('-', "_"));
        assert_eq!(st(&replace_char(&cs(s), '_', '-')), s.replace('_', "-"));
    }
}

#[test]
fn whitespace_is_that_of_std_for_every_character() {
    for n in 0..=0x10FFFFu32 {
        if let Some(c) = char::from_u32(n) {
            assert_eq!(Strip::Whitespace.test(c), c.is_whitespace(), "U+{n:04X}");
        }
    }
}

#[test]
fn strip_char_takes_only_that_character() {
    assert!(Strip::Char('"').test('"'));
    assert!(!Strip::Char('"').test('\''));
}

#[test]
fn trim_matches_std() {
    for s in ["", " ", "  a  ", "\t\r\nname = \"x\" \u{3000}", "a b", "\u{a0}x\u{85}", "   "] {
        assert_eq!(st(&trim(&cs(s), Strip::Whitespace)), s.trim(), "{s:?}");
    }
    for s in ["", "\"", "\"\"", "\"a\"", "\"\"a\"b\"\"", "a\"", "'a'"] {
        assert_eq!(st(&trim(&cs(s), Strip::Char('"'))), s.trim_matches('"'), "{s:?}");
        assert_eq!(st(&trim(&cs(s), Strip::Char('\''))), s.trim_matches('\''), "{s:?}");
    }
}

#[test]
fn digits() {
    let all: String = (0..16u8).map(digit_char).collect();
    assert_eq!(all, "0123456789abcdef");
}

#[test]
fn decimal_matches_std() {
    for n in [0u64, 1, 9, 10, 63, 64, 99, 100, 255, 10485760, u32::MAX as u64, u64::MAX] {
        let mut s = String::from(">");
        push_decimal(&mut s, n);
        assert_eq!(s, format!(">{n}"));
    }
}

#[test]
fn hex_matches_std() {
    for n in [0u64, 1, 3, 9, 10, 15, 16, 255, 256, 0xdeadbeef, u32::MAX as u64, u64::MAX] {
        let mut s = String::from("0x");
        push_hex(&mut s, n);
        assert_eq!(s, format!("0x{n:x}"));
    }
}

#[test]
fn signed_matches_std() {
    for n in [0i32, 1, -1, 101, -101, i32::MAX, i32::MIN] {
        let mut s = String::new();
        push_signed(&mut s, n);
        assert_eq!(s, format!("{n}"));
    }
}
