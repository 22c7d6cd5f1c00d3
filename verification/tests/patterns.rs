use cairs::pattern::{apply_file_filters, matches_pattern, parse_include_patterns};

fn names(list: &[&str]) -> Vec<String> {
    list.iter().map(|s| s.to_string()).collect()
}

#[test]
fn extension_pattern_matches_by_suffix() {
    assert!(matches_pattern("src/main.rs", "*.rs"));
    assert!(matches_pattern(".rs", "*.rs"));
    assert!(!matches_pattern("src/main.py", "*.rs"));
    assert!(!matches_pattern("src/mainrs", "*.rs"));
    assert!(!matches_pattern("main.rs.bak", "*.rs"));
    assert_eq!(matches_pattern("a/b.test.js", "*.test.js"), "a/b.test.js".ends_with(".test.js"));
}

#[test]
fn extension_pattern_with_empty_extension_matches_a_trailing_dot() {
    assert!(matches_pattern("notes.", "*."));
    assert!(!matches_pattern("notes", "*."));
}

#[test]
fn extension_pattern_takes_a_second_star_literally() {
    assert!(matches_pattern("a.r*", "*.r*"));
    assert!(!matches_pattern("a.rs", "*.r*"));
}

#[test]
fn single_wildcard_matches_prefix_and_suffix() {
    assert!(matches_pattern("src/lib.rs", "src/*.rs"));
    assert!(matches_pattern("test_main.py", "test_*"));
    assert!(matches_pattern("anything", "*"));
    assert!(!matches_pattern("lib/src/lib.rs", "src/*.rs"));
    assert!(!matches_pattern("src/lib.py", "src/*.rs"));
}

#[test]
fn single_wildcard_lets_prefix_and_suffix_overlap() {
    assert!(matches_pattern("ab", "ab*b"));
    assert!(matches_pattern("aba", "ab*ba"));
}

#[test]
fn several_wildcards_fall_back_to_substring_search() {
    assert!(!matches_pattern("src/a/b.rs", "src/*/*.rs"));
    assert!(matches_pattern("x src/*/*.rs y", "src/*/*.rs"));
    assert!(matches_pattern("a**b", "**"));
    assert!(!matches_pattern("ab", "**"));
}

#[test]
fn plain_pattern_is_a_substring_search() {
    assert!(matches_pattern("src/generated/api.rs", "generated"));
    assert!(!matches_pattern("src/api.rs", "generated"));
    assert!(matches_pattern("abc", "abc"));
    assert!(!matches_pattern("ab", "abc"));
    assert!(matches_pattern("whatever", ""));
    assert!(matches_pattern("", ""));
}

#[test]
fn patterns_work_on_characters_beyond_ascii() {
    assert!(matches_pattern("src/grüße.rs", "*.rs"));
    assert!(matches_pattern("src/grüße.rs", "src/grü*.rs"));
    assert!(matches_pattern("src/grüße.rs", "üß"));
    assert!(!matches_pattern("src/grusse.rs", "üß"));
}

#[test]
fn include_list_is_split_at_commas_and_trimmed() {
    let patterns = parse_include_patterns(" *.rs ,\t*.py\n,src/*");
    let expected: Vec<Vec<char>> =
        vec!["*.rs".chars().collect(), "*.py".chars().collect(), "src/*".chars().collect()];
    assert_eq!(patterns, expected);
}

#[test]
fn include_list_keeps_empty_pieces() {
    let patterns = parse_include_patterns("a,,b,");
    let expected: Vec<Vec<char>> =
        vec![vec!['a'], Vec::new(), vec!['b'], Vec::new()];
    assert_eq!(patterns, expected);
    assert_eq!(parse_include_patterns(""), vec![Vec::<char>::new()]);
}

#[test]
fn include_list_trims_unicode_white_space() {
    let patterns = parse_include_patterns("\u{a0}*.rs\u{3000},\u{2003}x\u{85}");
    let expected: Vec<Vec<char>> = vec!["*.rs".chars().collect(), vec!['x']];
    assert_eq!(patterns, expected);
}

#[test]
fn no_patterns_keep_every_file() {
    let files = names(&["a.rs", "b.py", "c.txt"]);
    assert_eq!(apply_file_filters(&files, None, None), files);
}

#[test]
fn skip_pattern_removes_matching_files() {
    let files = names(&["src/a.rs", "tests/a.rs", "src/b.rs"]);
    assert_eq!(
        apply_file_filters(&files, Some("tests"), None),
        names(&["src/a.rs", "src/b.rs"])
    );
}

#[test]
fn include_patterns_keep_files_that_match_any() {
    let files = names(&["a.rs", "b.py", "c.js", "d.rs"]);
    assert_eq!(
        apply_file_filters(&files, None, Some("*.rs, *.js")),
        names(&["a.rs", "c.js", "d.rs"])
    );
}

#[test]
fn skip_and_include_apply_together() {
    let files = names(&["src/a.rs", "src/gen/a.rs", "src/b.py", "src/gen/c.py"]);
    assert_eq!(
        apply_file_filters(&files, Some("gen"), Some("*.rs")),
        names(&["src/a.rs"])
    );
}

#[test]
fn an_empty_piece_in_the_include_list_matches_every_file() {
    let files = names(&["a.rs", "b.py"]);
    assert_eq!(apply_file_filters(&files, None, Some("*.rs,")), files);
}

#[test]
fn filtering_keeps_order_and_duplicates() {
    let files = names(&["z.rs", "a.rs", "m.py", "a.rs"]);
    assert_eq!(
        apply_file_filters(&files, None, Some("*.rs")),
        names(&["z.rs", "a.rs", "a.rs"])
    );
}

#[test]
fn filtering_twice_is_filtering_once() {
    let files = names(&["src/a.rs", "tests/a.rs", "src/b.py", "src/c.rs", "README.md"]);
    let once = apply_file_filters(&files, Some("tests"), Some("*.rs,*.md"));
    let twice = apply_file_filters(&once, Some("tests"), Some("*.rs,*.md"));
    assert_eq!(once, names(&["src/a.rs", "src/c.rs", "README.md"]));
    assert_eq!(twice, once);
}

#[test]
fn filtering_an_empty_list_gives_an_empty_list() {
    let files: Vec<String> = Vec::new();
    assert!(apply_file_filters(&files, Some("x"), Some("*.rs")).is_empty());
}
