use nox::text::{
    chars_of, conjoin, find_in, has_prefix, has_substring, has_suffix, join, last_position,
    lines_of, read_number, replace, same_text, split_chars, string_of, trim,
};

fn chars(s: &str) -> Vec<char> {
    s.chars().collect()
}

fn texts(rows: Vec<Vec<char>>) -> Vec<String> {
    rows.into_iter().map(|r| r.into_iter().collect()).collect()
}

#[test]
fn strings_and_characters_convert_both_ways() {
    assert_eq!(chars_of("héllo"), vec!['h', 'é', 'l', 'l', 'o']);
    assert_eq!(string_of(&vec!['h', 'é', 'l', 'l', 'o']), "héllo");
    assert_eq!(string_of(&chars_of("")), "");
    assert_eq!(conjoin("ab", "cd"), "abcd");
}

#[test]
fn substrings_are_found_at_their_first_position() {
    assert_eq!(find_in(&chars("abcabc"), &chars("bc")), Some(1));
    assert_eq!(find_in(&chars("abcabc"), &chars("")), Some(0));
    assert_eq!(find_in(&chars(""), &chars("")), Some(0));
    assert_eq!(find_in(&chars("abc"), &chars("abcd")), None);
    assert_eq!(find_in(&chars("abc"), &chars("c")), Some(2));
    assert!(has_substring(&chars("abc"), &chars("bc")));
    assert!(!has_substring(&chars("abc"), &chars("cb")));
    assert!(has_prefix(&chars("abc"), &chars("ab")));
    assert!(!has_prefix(&chars("abc"), &chars("bc")));
    assert!(has_suffix(&chars("abc"), &chars("bc")));
    assert!(!has_suffix(&chars("abc"), &chars("ab")));
    assert!(has_suffix(&chars("abc"), &chars("")));
    assert_eq!(last_position(&chars("a/b/c"), '/'), Some(3));
    assert_eq!(last_position(&chars("abc"), '/'), None);
    assert!(same_text(&chars("abc"), &chars("abc")));
    assert!(!same_text(&chars("abc"), &chars("abd")));
    assert!(!same_text(&chars("abc"), &chars("ab")));
}

#[test]
fn white_space_is_trimmed_at_both_ends() {
    assert_eq!(string_of(&trim(&chars(" \t a b \r\n"))), "a b");
    assert_eq!(string_of(&trim(&chars("\u{2003}x\u{3000}"))), "x");
    assert_eq!(string_of(&trim(&chars("   "))), "");
    assert_eq!(string_of(&trim(&chars(""))), "");
}

#[test]
fn text_is_cut_at_separators() {
    assert_eq!(texts(split_chars(&chars("/a//b/"), '/')), vec!["", "a", "", "b", ""]);
    assert_eq!(texts(split_chars(&chars("abc"), '/')), vec!["abc"]);
    assert_eq!(texts(split_chars(&chars(""), '/')), vec![""]);
}

#[test]
fn lines_end_at_line_feeds() {
    assert_eq!(texts(lines_of(&chars("a\nb\r\nc"))), vec!["a", "b", "c"]);
    assert_eq!(texts(lines_of(&chars("a\n\nb\n"))), vec!["a", "", "b"]);
    assert_eq!(texts(lines_of(&chars("a\r"))), vec!["a\r"]);
    assert_eq!(texts(lines_of(&chars("a\r\r\n"))), vec!["a\r"]);
    assert!(lines_of(&chars("")).is_empty());
    assert_eq!(texts(lines_of(&chars("\n"))), vec![""]);
    for sample in ["a\nb\r\nc", "a\n\nb\n", "a\r", "a\r\r\n", "", "\n", "\r\n\r\n", "x\ny\n\n"] {
        let expected: Vec<String> = sample.lines().map(|l| l.to_string()).collect();
        assert_eq!(texts(lines_of(&chars(sample))), expected);
    }
}

#[test]
fn rows_are_joined_with_a_separator() {
    assert_eq!(string_of(&join(&vec![chars("a"), chars(""), chars("b")], &chars(", "))), "a, , b");
    assert_eq!(string_of(&join(&vec![chars("a")], &chars(", "))), "a");
    assert_eq!(string_of(&join(&vec![], &chars(", "))), "");
}

#[test]
fn numbers_are_read_from_ascii_digits() {
    let v = chars("x0123y");
    assert_eq!(read_number(&v, 1, 5), Some(123));
    assert_eq!(read_number(&v, 1, 1), None);
    assert_eq!(read_number(&v, 0, 2), None);
    assert_eq!(read_number(&chars("18446744073709551615"), 0, 20), Some(u64::MAX));
    assert_eq!(read_number(&chars("18446744073709551616"), 0, 20), Some(u64::MAX));
    assert_eq!(read_number(&chars("١٢"), 0, 2), None);
}

#[test]
fn every_occurrence_is_replaced_from_left_to_right() {
    assert_eq!(replace("a:b:c", ":", "\\:"), "a\\:b\\:c");
    assert_eq!(replace("aaa", "aa", "b"), "ba");
    assert_eq!(replace("abc", "x", "y"), "abc");
    assert_eq!(replace("abc", "", "y"), "abc");
    assert_eq!(replace("abc", "abc", ""), "");
    assert_eq!(replace("{streamer} and {streamer}", "{streamer}", "Ana"), "Ana and Ana");
}
