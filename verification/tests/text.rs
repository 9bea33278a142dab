use forum_watch::text::{chars_of, clean, contains, decimal_text, same};

#[test]
fn characters_come_in_order() {
    assert_eq!(chars_of("a頂c"), vec!['a', '頂', 'c']);
    assert_eq!(chars_of(""), Vec::<char>::new());
}

#[test]
fn contains_finds_a_run_of_characters() {
    assert!(contains("【頂】公告", "【頂】"));
    assert!(contains("公告【頂】", "【頂】"));
    assert!(contains("公【頂】告", "【頂】"));
    assert!(contains("abc", ""));
    assert!(contains("", ""));
    assert!(contains("abc", "abc"));
    assert!(contains("aab", "ab"));
}

#[test]
fn contains_rejects_what_is_not_there() {
    assert!(!contains("【頂公告】", "【頂】"));
    assert!(!contains("", "【頂】"));
    assert!(!contains("ab", "abc"));
    assert!(!contains("abab", "ba b"));
    assert!(!contains("頂", "【頂】"));
}

#[test]
fn contains_agrees_with_std() {
    let hays = ["", "a", "ab", "aba", "abab", "【頂】x", "x【頂】", "【【頂】】"];
    let needles = ["", "a", "b", "ab", "ba", "aba", "【頂】", "【", "】】"];
    for hay in hays {
        for needle in needles {
            assert_eq!(contains(hay, needle), hay.contains(needle));
        }
    }
}

#[test]
fn same_compares_text() {
    assert!(same("威士忌", "威士忌"));
    assert!(!same("威士忌", "白蘭地"));
    assert!(!same("ab", "abc"));
    assert!(same("", ""));
}

#[test]
fn clean_drops_line_feeds_and_outer_white_space() {
    assert_eq!(clean("  \n title \n one\t \n"), "title  one");
    assert_eq!(clean("plain"), "plain");
    assert_eq!(clean(""), "");
    assert_eq!(clean(" \n\t \u{3000}"), "");
    assert_eq!(clean("\u{3000}標\n題\u{a0}"), "標題");
    assert_eq!(clean("a\r\nb"), "a\rb");
}

#[test]
fn clean_agrees_with_std() {
    let raws = ["", " ", "a", " a", "a ", "\na\n", "a\nb", " a \n b ", "\t\n\r x \u{2003}y\n "];
    for raw in raws {
        assert_eq!(clean(raw), raw.replace("\n", "").trim().to_string());
    }
}

#[test]
fn decimal_writes_numbers() {
    assert_eq!(decimal_text(0), "0");
    assert_eq!(decimal_text(7), "7");
    assert_eq!(decimal_text(10), "10");
    assert_eq!(decimal_text(12), "12");
    assert_eq!(decimal_text(305), "305");
    assert_eq!(decimal_text(usize::MAX), usize::MAX.to_string());
}
