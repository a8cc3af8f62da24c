use clipboard_formatter::text::{
    append_chars, apply_replacements, contains_char, fold_match, fold_one, fold_with, from_chars,
    matches_at, replace_all, to_chars, FormatError, ReplacementRule, FOLD_FIRST, FOLD_LAST,
    FOLD_OFFSET, FOLD_PATTERN,
};
use regex::Regex;

fn chars(s: &str) -> Vec<char> {
    s.chars().collect()
}

#[test]
fn the_fold_constants() {
    assert_eq!(FOLD_FIRST, '！');
    assert_eq!(FOLD_LAST, '～');
    assert_eq!(FOLD_OFFSET, 0xFEE0);
    assert_eq!(FOLD_PATTERN, "[！-～]");
}

#[test]
fn text_to_characters_and_back() {
    assert_eq!(to_chars("aＡ日"), vec!['a', 'Ａ', '日']);
    assert_eq!(to_chars(""), Vec::<char>::new());
    assert_eq!(from_chars(&['a', 'Ａ', '日']), "aＡ日");
    assert_eq!(from_chars(&[]), "");
}

#[test]
fn membership_in_the_exclusion_list() {
    assert!(contains_char(&['！', '？'], '？'));
    assert!(!contains_char(&['！', '？'], '!'));
    assert!(!contains_char(&[], 'a'));
}

#[test]
fn one_character_folded() {
    assert_eq!(fold_one('Ａ', &[]), 'A');
    assert_eq!(fold_one('Ａ', &['Ａ']), 'Ａ');
    assert_eq!(fold_one('A', &[]), 'A');
    assert_eq!(fold_one('１', &['２']), '1');
    assert_eq!(fold_one('～', &[]), '~');
}

#[test]
fn one_match_replaced_by_the_fold_of_its_first_character() {
    assert_eq!(fold_match("Ａ", &[]), "A");
    assert_eq!(fold_match("Ａ", &['Ａ']), "Ａ");
    assert_eq!(fold_match("ＡＢ", &[]), "A");
    assert_eq!(fold_match("", &[]), "");
}

#[test]
fn an_occurrence_is_found_where_it_stands() {
    let text = chars("abcabc");
    assert!(matches_at(&text, 0, &chars("abc")));
    assert!(!matches_at(&text, 1, &chars("abc")));
    assert!(matches_at(&text, 3, &chars("abc")));
    assert!(matches_at(&text, 6, &chars("")));
}

#[test]
fn characters_are_appended() {
    let mut out = chars("ab");
    append_chars(&mut out, &chars("cd"));
    assert_eq!(out, chars("abcd"));
    append_chars(&mut out, &[]);
    assert_eq!(out, chars("abcd"));
}

#[test]
fn every_occurrence_is_replaced() {
    assert_eq!(replace_all(&chars("foo baz foo"), &chars("foo"), &chars("bar")), chars("bar baz bar"));
    assert_eq!(replace_all(&chars("aaa"), &chars("aa"), &chars("b")), chars("ba"));
    assert_eq!(replace_all(&chars("abc"), &chars(""), &chars("x")), chars("abc"));
    assert_eq!(replace_all(&chars(""), &chars("a"), &chars("x")), chars(""));
    assert_eq!(replace_all(&chars("abc"), &chars("abcd"), &chars("x")), chars("abc"));
}

#[test]
fn rules_without_folding() {
    let rules = vec![
        ReplacementRule::new("a".to_string(), "ab".to_string()),
        ReplacementRule::new("b".to_string(), "c".to_string()),
    ];
    assert_eq!(apply_replacements("a！", &rules), "ac！");
    assert_eq!(apply_replacements("a！", &[]), "a！");
}

#[test]
fn folding_with_the_compiled_fold_pattern() {
    let compiled = Regex::new(FOLD_PATTERN);
    assert_eq!(fold_with(compiled, "ａｂｃ ！？", &['？']), Ok("abc !？".to_string()));
}

#[test]
fn folding_without_a_compiled_pattern_fails() {
    let compiled = Regex::new("(");
    assert!(compiled.is_err());
    assert_eq!(fold_with(compiled, "ａ", &[]), Err(FormatError::Pattern));
}

#[test]
fn the_words_of_a_transformation_failure() {
    assert_eq!(FormatError::Pattern.message(), "Failed to create regex pattern");
}

#[test]
fn the_regex_folds_every_character_as_one_character_is_folded() {
    let exclusions = ['！', '５', 'ｚ', '～', 'x'];
    let all: String = (0u32..0x11_0000).filter_map(char::from_u32).collect();
    let expected: String = all.chars().map(|c| fold_one(c, &exclusions)).collect();
    let compiled = Regex::new(FOLD_PATTERN);
    assert_eq!(fold_with(compiled, &all, &exclusions), Ok(expected));
}

#[test]
fn the_regex_leaves_an_empty_text_empty() {
    assert_eq!(fold_with(Regex::new(FOLD_PATTERN), "", &[]), Ok(String::new()));
}
