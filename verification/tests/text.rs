use breathe::text::{clean_word, join, split_lines, split_words, str_eq, trim, usize_to_string};

#[test]
fn string_equality_is_by_characters() {
    assert!(str_eq("", ""));
    assert!(str_eq("abc", "abc"));
    assert!(!str_eq("abc", "abd"));
    assert!(!str_eq("abc", "ab"));
}

#[test]
fn trim_removes_surrounding_whitespace_only() {
    assert_eq!(trim("  a b \t\n"), "a b");
    assert_eq!(trim("x"), "x");
    assert_eq!(trim("   "), "");
    assert_eq!(trim(""), "");
}

#[test]
fn decimal_rendering_matches_the_standard_formatter() {
    assert_eq!(usize_to_string(0), "0");
    assert_eq!(usize_to_string(7), "7");
    assert_eq!(usize_to_string(10), "10");
    assert_eq!(usize_to_string(50607), "50607");
    assert_eq!(usize_to_string(98765), format!("{}", 98765));
}

#[test]
fn join_separates_every_pair_of_items() {
    assert_eq!(join(&vec![], ", "), "");
    assert_eq!(join(&vec![String::from("a")], ", "), "a");
    assert_eq!(
        join(&vec![String::from("a"), String::from("b"), String::from("c")], ", "),
        "a, b, c"
    );
}

#[test]
fn lines_split_like_the_standard_library() {
    assert_eq!(split_lines(""), Vec::<String>::new());
    assert_eq!(split_lines("a\nb"), vec!["a", "b"]);
    assert_eq!(split_lines("a\nb\n"), vec!["a", "b"]);
    assert_eq!(split_lines("\n"), vec![""]);
    assert_eq!(split_lines("a\r\nb"), vec!["a", "b"]);
    assert_eq!(split_lines("a\r"), vec!["a\r"]);
}

#[test]
fn words_are_maximal_nonblank_runs() {
    assert_eq!(split_words(""), Vec::<String>::new());
    assert_eq!(split_words("   "), Vec::<String>::new());
    assert_eq!(split_words(" a  bb\tc "), vec!["a", "bb", "c"]);
}

#[test]
fn cleaning_keeps_only_alphabetic_characters() {
    assert_eq!(clean_word("a1b!c"), "abc");
    assert_eq!(clean_word("123"), "");
    assert_eq!(clean_word(""), "");
}
