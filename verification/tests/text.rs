use mprisbee_bridge::text::{
    after_prefix, chars_of, decimal_text, join, replace, text_eq, text_of,
};

fn replace_text(s: &str, pat: &str, to: &str) -> String {
    text_of(&replace(&chars_of(s), &chars_of(pat), &chars_of(to)))
}

#[test]
fn decimal_notation() {
    assert_eq!(decimal_text(0), "0");
    assert_eq!(decimal_text(9), "9");
    assert_eq!(decimal_text(10), "10");
    assert_eq!(decimal_text(1000), "1000");
    assert_eq!(decimal_text(4294967295), "4294967295");
}

#[test]
fn characters_there_and_back() {
    let s = "Mötley Crüe – ♫";
    assert_eq!(chars_of(s), s.chars().collect::<Vec<char>>());
    assert_eq!(text_of(&chars_of(s)), s);
    assert_eq!(text_of(&chars_of("")), "");
}

#[test]
fn replacement_agrees_with_the_standard_library() {
    for s in ["", "a", "aa", "aaa", "aaaa", "abab", "C:/C:/x", "CC:/", "Z:Z:/", "xC:", "ä\\ö\\"] {
        for pat in ["a", "aa", "ab", "C:/", "Z:/", "\\"] {
            for to in ["", "/", "aa", "C:/"] {
                assert_eq!(replace_text(s, pat, to), s.replace(pat, to));
            }
        }
    }
}

#[test]
fn replacement_does_not_look_at_what_it_wrote() {
    assert_eq!(replace_text("Z:Z:/", "Z:/", "/"), "Z:/");
    assert_eq!(replace_text("aaa", "aa", "b"), "ba");
}

#[test]
fn replacement_without_a_match_keeps_the_text() {
    assert_eq!(replace_text("/home/user/x.mp3", "C:/", "?"), "/home/user/x.mp3");
}

#[test]
fn rest_behind_a_prefix() {
    assert_eq!(after_prefix("NAME=value", "NAME="), Some("value".to_string()));
    assert_eq!(after_prefix("NAME=", "NAME="), Some(String::new()));
    assert_eq!(after_prefix("NAM", "NAME="), None);
    assert_eq!(after_prefix("xNAME=", "NAME="), None);
}

#[test]
fn joined_texts() {
    assert_eq!(join(&vec![], ", "), "");
    assert_eq!(join(&vec!["a".to_string()], ", "), "a");
    assert_eq!(
        join(&vec!["a".to_string(), "".to_string(), "c".to_string()], ", "),
        "a, , c"
    );
}

#[test]
fn equal_texts() {
    assert!(text_eq("seek", "seek"));
    assert!(!text_eq("seek", "seeks"));
    assert!(!text_eq("Seek", "seek"));
}
