use breathe::validator::{
    clean_words, spelling_complaint, spelling_verdict, validate_body_line_length, validate_commit_type,
    validate_email, validate_not_empty, validate_password, validate_summary_length,
    validate_summary_punctuation, valid_types, Validation,
};

fn message(v: Validation) -> Option<String> {
    match v {
        Validation::Valid => None,
        Validation::Invalid(m) => Some(m),
    }
}

#[test]
fn empty_and_blank_inputs_are_rejected() {
    let v = validate_not_empty("").unwrap();
    assert_eq!(message(v), Some(String::from("Input cannot be empty")));
    let v = validate_not_empty("  \t \n ").unwrap();
    assert_eq!(message(v), Some(String::from("Input cannot be empty")));
}

#[test]
fn nonblank_input_is_accepted() {
    let v = validate_not_empty("  x  ").unwrap();
    assert_eq!(message(v), None);
}

#[test]
fn well_formed_emails_are_accepted() {
    assert_eq!(message(validate_email("user@example.com").unwrap()), None);
    assert_eq!(message(validate_email("a.b+c_d@mail.example.org").unwrap()), None);
}

#[test]
fn malformed_emails_are_rejected() {
    for bad in ["", "user", "user@", "@example.com", "user@example", "user example.com"] {
        let v = validate_email(bad).unwrap();
        assert_eq!(
            message(v),
            Some(String::from("Invalid email format")),
            "{:?} should be rejected",
            bad
        );
    }
}

#[test]
fn short_passwords_are_rejected() {
    let v = validate_password("seven77").unwrap();
    assert_eq!(
        message(v),
        Some(String::from("Password must be at least 8 characters long"))
    );
    assert_eq!(message(validate_password("eight888").unwrap()), None);
}

#[test]
fn the_accepted_commit_types_are_fixed() {
    assert_eq!(
        valid_types(),
        vec!["feat", "fix", "docs", "style", "refactor", "perf", "test", "chore", "ci", "build"]
    );
    for t in valid_types() {
        assert_eq!(message(validate_commit_type(t).unwrap()), None);
    }
}

#[test]
fn commit_types_are_trimmed_before_the_check() {
    assert_eq!(message(validate_commit_type("  fix  ").unwrap()), None);
}

#[test]
fn an_unknown_commit_type_is_rejected_with_the_full_list() {
    let v = validate_commit_type("feature").unwrap();
    assert_eq!(
        message(v),
        Some(String::from(
            "Type 'feature' invalide. Must be one of: feat, fix, docs, style, refactor, perf, test, chore, ci, build"
        ))
    );
}

#[test]
fn a_summary_of_fifty_bytes_passes() {
    let s = "a".repeat(50);
    assert_eq!(message(validate_summary_length(&s).unwrap()), None);
}

#[test]
fn an_overlong_summary_reports_its_length() {
    let s = "a".repeat(51);
    let v = validate_summary_length(&s).unwrap();
    assert_eq!(
        message(v),
        Some(String::from("Summary is too long : 51 chars. The lim is 50."))
    );
}

#[test]
fn summary_length_ignores_surrounding_whitespace() {
    let s = format!("   {}   ", "a".repeat(50));
    assert_eq!(message(validate_summary_length(&s).unwrap()), None);
}

#[test]
fn a_summary_ending_with_a_period_is_rejected() {
    let v = validate_summary_punctuation("Add the frobnicator.").unwrap();
    assert_eq!(
        message(v),
        Some(String::from("Summary should not end with a period."))
    );
    assert_eq!(message(validate_summary_punctuation("Add the frobnicator").unwrap()), None);
    assert_eq!(message(validate_summary_punctuation("Ends with a dot.  ").unwrap()).is_some(), true);
    assert_eq!(message(validate_summary_punctuation("").unwrap()), None);
}

#[test]
fn short_body_lines_pass() {
    let body = format!("{}\n{}", "a".repeat(72), "b".repeat(10));
    assert_eq!(message(validate_body_line_length(&body).unwrap()), None);
}

#[test]
fn the_first_overlong_body_line_is_reported() {
    let long = "x".repeat(73);
    let body = format!("short\n{}\nlast", long);
    let v = validate_body_line_length(&body).unwrap();
    let expected = format!(
        "The line \"{}...\" is too long (73 chars). Limit: 72.",
        "x".repeat(20)
    );
    assert_eq!(message(v), Some(expected));
}

#[test]
fn body_lines_split_on_newlines_with_crlf() {
    // "\r\n" ends a line without counting the carriage return.
    let body = format!("{}\r\nok", "y".repeat(72));
    assert_eq!(message(validate_body_line_length(&body).unwrap()), None);
}

#[test]
fn clean_words_keep_only_alphabetic_characters() {
    let words = clean_words("Hello, wor3ld! 123 --- don't");
    assert_eq!(words, vec!["Hello", "world", "dont"]);
}

#[test]
fn clean_words_of_a_blank_input_are_none() {
    assert_eq!(clean_words("  12 44 !! "), Vec::<String>::new());
}

#[test]
fn a_spelling_complaint_lists_the_suggestions() {
    let suggestions = vec![String::from("hello"), String::from("help")];
    let v = spelling_complaint("helo", &suggestions);
    assert_eq!(
        message(v),
        Some(String::from("Spelling error: 'helo'. Suggestions: [hello, help]"))
    );
}

#[test]
fn a_known_word_passes_and_a_missing_word_complains() {
    assert!(spelling_verdict("hello", &None).is_none());
    let v = spelling_verdict("helo", &Some(vec![String::from("hello")]));
    match v {
        Some(Validation::Invalid(m)) => {
            assert_eq!(m, "Spelling error: 'helo'. Suggestions: [hello]");
        },
        _ => panic!("a missing word must yield the complaint"),
    }
}

#[test]
fn a_spelling_complaint_with_no_suggestions_shows_an_empty_list() {
    let v = spelling_complaint("zzzz", &Vec::new());
    assert_eq!(message(v), Some(String::from("Spelling error: 'zzzz'. Suggestions: []")));
}
