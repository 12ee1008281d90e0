use monster_player::text::{join, push_decimal, push_two_digits, str_contains, trim_to_string, without_last, wrap_text};

#[test]
fn wrap_text_cuts_into_chunks() {
    assert_eq!(wrap_text("abcdefg", 3), vec!["abc", "def", "g"]);
    assert_eq!(wrap_text("塞壬唱片音乐", 4), vec!["塞壬唱片", "音乐"]);
    assert!(wrap_text("", 5).is_empty());
    assert_eq!(wrap_text("abc", 10), vec!["abc"]);
}

#[test]
fn join_places_separator_between_parts() {
    let parts = vec!["a".to_string(), "b".to_string(), "c".to_string()];
    assert_eq!(join(&parts, ", "), "a, b, c");
    assert_eq!(join(&Vec::new(), ", "), "");
    assert_eq!(join(&vec!["solo".to_string()], ", "), "solo");
}

#[test]
fn trimming_removes_unicode_white_space() {
    assert_eq!(trim_to_string("  hi there \t\n"), "hi there");
    assert_eq!(trim_to_string("\u{3000}全角\u{3000}"), "全角");
    assert_eq!(trim_to_string("   "), "");
}

#[test]
fn substring_search() {
    assert!(str_contains("monster siren", "siren"));
    assert!(str_contains("abc", ""));
    assert!(!str_contains("abc", "abcd"));
    assert!(!str_contains("abc", "ac"));
}

#[test]
fn dropping_the_last_character() {
    assert_eq!(without_last(&"abc".to_string()), "ab");
    assert_eq!(without_last(&"月行".to_string()), "月");
    assert_eq!(without_last(&String::new()), "");
}

#[test]
fn decimal_notation() {
    let mut s = String::from("n=");
    push_decimal(&mut s, 0);
    assert_eq!(s, "n=0");
    let mut s = String::new();
    push_decimal(&mut s, 1234567890);
    assert_eq!(s, "1234567890");
    let mut s = String::new();
    push_two_digits(&mut s, 7);
    push_two_digits(&mut s, 42);
    push_two_digits(&mut s, 123);
    assert_eq!(s, "0742123");
}

#[test]
fn wrapped_lines_put_back_give_the_text() {
    let text = "塞壬唱片 Monster Siren Records 音乐";
    for width in 1..12 {
        let lines = wrap_text(text, width);
        assert_eq!(lines.concat(), text);
        for (i, l) in lines.iter().enumerate() {
            let n = l.chars().count();
            assert!(n > 0 && n <= width);
            if i + 1 < lines.len() {
                assert_eq!(n, width);
            }
        }
    }
}
