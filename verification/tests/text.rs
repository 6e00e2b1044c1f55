use dessert::numbers::{decimal_chars, parse_number, two_digit_chars};
use dessert::paths::{destination_path, file_extension, file_stem};
use dessert::text::{
    append_chars, chars_of, replace_char, same_chars, same_text, strip_end, text_of, trim,
};

fn chars(text: &str) -> Vec<char> {
    text.chars().collect()
}

#[test]
fn strings_and_characters_convert_both_ways() {
    assert_eq!(chars_of("a\u{e9}z"), vec!['a', '\u{e9}', 'z']);
    assert_eq!(chars_of(""), Vec::<char>::new());
    assert_eq!(text_of(&vec!['o', 'k']), "ok");
    assert_eq!(text_of(&Vec::new()), "");
}

#[test]
fn texts_are_compared_character_by_character() {
    assert!(same_text("abc", "abc"));
    assert!(!same_text("abc", "abd"));
    assert!(!same_text("abc", "ab"));
    assert!(same_text("", ""));
    assert!(same_chars(&chars("x"), &chars("x")));
    assert!(!same_chars(&chars("x"), &chars("")));
}

#[test]
fn every_occurrence_is_replaced() {
    assert_eq!(replace_char(&chars("a.b..c."), '.', ' '), chars("a b  c "));
    assert_eq!(replace_char(&chars("abc"), '.', ' '), chars("abc"));
    assert_eq!(replace_char(&chars(""), '.', ' '), chars(""));
}

#[test]
fn white_space_goes_from_both_ends_only() {
    assert_eq!(trim(&chars("  a b \t\n")), chars("a b"));
    assert_eq!(trim(&chars("\u{a0}x\u{3000}")), chars("x"));
    assert_eq!(trim(&chars("   ")), chars(""));
    assert_eq!(trim(&chars("")), chars(""));
    assert_eq!(trim(&chars("x")), chars("x"));
}

#[test]
fn trailing_run_is_stripped() {
    assert_eq!(strip_end(&chars("http://x/api///"), '/'), chars("http://x/api"));
    assert_eq!(strip_end(&chars("/a/b"), '/'), chars("/a/b"));
    assert_eq!(strip_end(&chars("///"), '/'), chars(""));
}

#[test]
fn characters_are_appended() {
    let mut text = chars("ab");
    append_chars(&mut text, &chars("cd"));
    assert_eq!(text, chars("abcd"));
    append_chars(&mut text, &chars(""));
    assert_eq!(text, chars("abcd"));
}

#[test]
fn numbers_are_written_in_decimal() {
    assert_eq!(decimal_chars(0), chars("0"));
    assert_eq!(decimal_chars(7), chars("7"));
    assert_eq!(decimal_chars(2015), chars("2015"));
    assert_eq!(decimal_chars(u32::MAX), chars("4294967295"));
    assert_eq!(two_digit_chars(0), chars("00"));
    assert_eq!(two_digit_chars(9), chars("09"));
    assert_eq!(two_digit_chars(10), chars("10"));
    assert_eq!(two_digit_chars(123), chars("123"));
}

#[test]
fn numbers_are_read_from_digits_only() {
    assert_eq!(parse_number(&chars("0")), Some(0));
    assert_eq!(parse_number(&chars("007")), Some(7));
    assert_eq!(parse_number(&chars("2015")), Some(2015));
    assert_eq!(parse_number(&chars("4294967295")), Some(u32::MAX));
    assert_eq!(parse_number(&chars("4294967296")), None);
    assert_eq!(parse_number(&chars("99999999999999999999")), None);
    assert_eq!(parse_number(&chars("")), None);
    assert_eq!(parse_number(&chars("12a")), None);
    assert_eq!(parse_number(&chars("+1")), None);
    assert_eq!(parse_number(&chars("\u{0661}")), None);
}

#[test]
fn extension_follows_the_last_period_of_the_file_name() {
    assert_eq!(file_extension("movie.mkv"), Some("mkv".to_string()));
    assert_eq!(file_extension("a/b.tar.gz"), Some("gz".to_string()));
    assert_eq!(file_extension("a.b/c"), None);
    assert_eq!(file_extension("noext"), None);
    assert_eq!(file_extension(".hidden"), None);
    assert_eq!(file_extension(".hidden.txt"), Some("txt".to_string()));
    assert_eq!(file_extension("name."), Some("".to_string()));
    assert_eq!(file_extension("dir/"), None);
    assert_eq!(file_extension("dir/.."), None);
    assert_eq!(file_extension("."), None);
    assert_eq!(file_extension(""), None);
}

#[test]
fn stem_is_the_file_name_without_its_extension() {
    assert_eq!(file_stem("/d/the.show.s01e02.rar"), Some("the.show.s01e02".to_string()));
    assert_eq!(file_stem("noext"), Some("noext".to_string()));
    assert_eq!(file_stem(".hidden"), Some(".hidden".to_string()));
    assert_eq!(file_stem("a/b.c"), Some("b".to_string()));
    assert_eq!(file_stem("a/"), None);
    assert_eq!(file_stem(".."), None);
    assert_eq!(file_stem(""), None);
}

#[test]
fn destination_is_directory_name_and_extension() {
    assert_eq!(destination_path("/d", "The Show - S01E02", "mkv"), "/d/The Show - S01E02.mkv");
    assert_eq!(destination_path("/d/", "Name", "mkv"), "/d/Name.mkv");
    assert_eq!(destination_path("", "Name", "mkv"), "Name.mkv");
    assert_eq!(destination_path("d", "A (2015)", ""), "d/A (2015).");
}
