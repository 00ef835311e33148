use multipkgdp::text::{
    char_is_space, char_to_lower, chars_of, contains_chars, join_strings, lower_chars, trim_bounds,
};

#[test]
fn whitespace_matches_std() {
    for u in 0u32..0x3100 {
        if let Some(c) = char::from_u32(u) {
            assert_eq!(char_is_space(c), c.is_whitespace(), "{:#x}", u);
        }
    }
    assert!(!char_is_space('\u{feff}'));
}

#[test]
fn lowercase_matches_std() {
    for u in 0u32..0x300 {
        if let Some(c) = char::from_u32(u) {
            assert_eq!(char_to_lower(c), c.to_ascii_lowercase());
        }
    }
    let s = "ÄrCH Linux";
    assert_eq!(lower_chars(s).into_iter().collect::<String>(), s.to_ascii_lowercase());
}

#[test]
fn trimming_matches_std() {
    for s in ["", "  ", " a b ", "\u{3000}x\u{a0}", "x", "\t\r\n"] {
        let v = chars_of(s);
        let (a, b) = trim_bounds(&v, 0, v.len());
        assert_eq!(v[a..b].iter().collect::<String>(), s.trim());
    }
}

#[test]
fn substring_search() {
    let h = chars_of("manjaro arch");
    assert!(contains_chars(&h, &chars_of("arch")));
    assert!(contains_chars(&h, &chars_of("")));
    assert!(!contains_chars(&h, &chars_of("void")));
    assert!(!contains_chars(&chars_of("ar"), &chars_of("arch")));
}

#[test]
fn joining() {
    let l = vec!["ubuntu".to_string(), "debian".to_string()];
    assert_eq!(join_strings(&l, " "), "ubuntu debian");
    assert_eq!(join_strings(&vec![], " "), "");
    assert_eq!(join_strings(&vec!["a".to_string()], ", "), "a");
}
