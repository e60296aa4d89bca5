use revwlol::text::{
    contains, decimal, signed_decimal, eq_ignore_ascii_case, is_white_space, replace_char, split_char, str_eq,
    trim, trim_start_char,
};

#[test]
fn white_space_matches_std_for_every_char() {
    for u in 0u32..=0x10FFFF {
        if let Some(c) = char::from_u32(u) {
            assert_eq!(is_white_space(c), c.is_whitespace(), "code point {:#x}", u);
        }
    }
}

#[test]
fn trim_matches_std() {
    for s in ["", "  ", " a ", "\tName#TAG\n", "\u{3000}x\u{2028}", "a b", "  left", "right  "] {
        assert_eq!(trim(s), s.trim());
    }
}

#[test]
fn trim_start_char_strips_all_leading() {
    assert_eq!(trim_start_char("##EUW", '#'), "EUW");
    assert_eq!(trim_start_char("EUW#", '#'), "EUW#");
    assert_eq!(trim_start_char("###", '#'), "");
}

#[test]
fn split_char_matches_std() {
    for s in ["", "a", "a#b", "#", "##", "a##b#", "x:y:z:w:v"] {
        for c in ['#', ':'] {
            let ours = split_char(s, c);
            let theirs: Vec<&str> = s.split(c).collect();
            assert_eq!(ours, theirs);
        }
    }
}

#[test]
fn str_eq_compares_chars() {
    assert!(str_eq("abc", "abc"));
    assert!(!str_eq("abc", "abd"));
    assert!(!str_eq("abc", "ab"));
    assert!(str_eq("", ""));
}

#[test]
fn contains_matches_std() {
    let cases = [("champ-select", "champ"), ("lobby", "champ"), ("", ""), ("abc", ""), ("ab", "abc"), ("aab", "ab")];
    for (h, n) in cases {
        assert_eq!(contains(h, n), h.contains(n), "{h} / {n}");
    }
}

#[test]
fn eq_ignore_ascii_case_matches_std() {
    let cases = [("Name#TAG", "name#tag"), ("Ä#x", "ä#x"), ("abc", "abd"), ("a", "ab"), ("", "")];
    for (a, b) in cases {
        assert_eq!(eq_ignore_ascii_case(a, b), a.eq_ignore_ascii_case(b));
    }
}

#[test]
fn replace_char_matches_std() {
    for s in ["Name#TAG", "##", "", "no hash"] {
        assert_eq!(replace_char(s, '#', "-"), s.replace('#', "-"));
    }
}

#[test]
fn decimal_matches_to_string() {
    for n in [0u64, 7, 10, 99, 12345, u64::MAX] {
        assert_eq!(decimal(n), n.to_string());
    }
}

#[test]
fn signed_decimal_matches_to_string() {
    for n in [0i64, 5, -5, 100, -1234, i64::MAX, i64::MIN] {
        assert_eq!(signed_decimal(n), n.to_string());
    }
}
