use dinput8_saga::text::{chars_of, text_contains, text_replace};

#[test]
fn chars_of_keeps_every_character() {
    assert_eq!(chars_of("aé€"), vec!['a', 'é', '€']);
    assert_eq!(chars_of(""), Vec::<char>::new());
}

#[test]
fn contains_finds_patterns() {
    assert!(text_contains("void __thiscall f(this)", "this"));
    assert!(text_contains("abc", ""));
    assert!(text_contains("", ""));
    assert!(!text_contains("ab", "abc"));
    assert!(!text_contains("int f(void)", "["));
    assert!(text_contains("int f(int[4])", "]"));
}

#[test]
fn replace_matches_std() {
    let cases = [
        ("a\\b\\\\c", "\\", ""),
        ("float10 x; float10 y;", "float10", ""),
        ("aaaa", "aa", "b"),
        ("aaa", "aa", "b"),
        ("abc", "", "X"),
        ("", "", "X"),
        ("", "a", "X"),
        ("int f(int f)", "f", "STUB_f"),
        ("STUB_STUB_x", "STUB_", ""),
    ];
    for (s, pat, rep) in cases {
        assert_eq!(text_replace(s, pat, rep), s.replace(pat, rep), "{s:?} {pat:?} {rep:?}");
    }
}

#[test]
fn replace_exact_values() {
    assert_eq!(text_replace("abc", "", "X"), "XaXbXcX");
    assert_eq!(text_replace("aaaa", "aa", "b"), "bb");
    assert_eq!(text_replace("aaa", "aa", "b"), "ba");
}
