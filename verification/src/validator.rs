//! Field validators for the commit-message authoring assistant:
//! independent predicates over their input strings, each yielding a
//! verdict — the input is acceptable, or a message says why it is not.
//!
//! The spell check's dictionary is an outside capability: this module
//! prepares the words to look up and phrases the complaint for a missing
//! word, and the caller owns the dictionary itself.

use crate::text::{
    alpha_only, clean_word, dec_spec, drop_empty_spec, join, join_spec, lines_of, split_lines,
    split_words, str_eq, string_views, trim, trim_spec, usize_to_string, words_of,
};
use vstd::prelude::*;
use vstd::string::*;

verus! {

/// The outcome of one validation: the input is acceptable, or a message
/// says why it is not.
pub enum Validation {
    Valid,
    Invalid(String),
}

/// The model of a verdict, with the message as its character sequence.
pub ghost enum ValidationSpec {
    Valid,
    Invalid(Seq<char>),
}

impl View for Validation {
    type V = ValidationSpec;

    open spec fn view(&self) -> ValidationSpec {
        match self {
            Validation::Valid => ValidationSpec::Valid,
            Validation::Invalid(m) => ValidationSpec::Invalid(m@),
        }
    }
}

/// A validator's own failure, as opposed to an invalid input: the failure
/// channel every validator's result carries. Its one candidate source,
/// compiling the email pattern, cannot fail on the fixed pattern, so the
/// validators promise `Ok` on every input.
#[derive(Clone, Copy, Debug, PartialEq, Eq, Structural)]
pub enum ValidatorError {
    PatternFailed,
}

/// What `validate_not_empty` decides: empty after trimming is invalid.
pub open spec fn not_empty_spec(s: Seq<char>) -> ValidationSpec {
    if trim_spec(s).len() == 0 {
        ValidationSpec::Invalid("Input cannot be empty"@)
    } else {
        ValidationSpec::Valid
    }
}

/// Validate that the input is not empty, ignoring surrounding whitespace.
pub fn validate_not_empty(input: &str) -> (r: Result<Validation, ValidatorError>)
    ensures
        r matches Ok(v) && v@ == not_empty_spec(input@),
{
    let t = trim(input);
    if t.is_empty() {
        Ok(Validation::Invalid(String::from_str("Input cannot be empty")))
    } else {
        Ok(Validation::Valid)
    }
}

/// Whether a string belongs to the email pattern's language: the result of
/// matching it against the fixed regular expression, a function of the
/// input characters alone.
pub uninterp spec fn email_match(s: Seq<char>) -> bool;

/// Relies on regex::Regex::new and regex::Regex::is_match with the fixed
/// pattern `^[a-zA-Z0-9._+-]+@([a-zA-Z0-9-]+\.)+[a-zA-Z]{2,}$`: whether the
/// input matches it, a function of the input alone. Regex::new fails only
/// on an invalid or oversized pattern, and this constant pattern is
/// neither, so a match result always comes back.
#[verifier::external_body]
fn email_pattern_match(input: &str) -> (r: Option<bool>)
    ensures
        r is Some,
        r matches Some(m) ==> m == email_match(input@),
{
    match regex::Regex::new("^[a-zA-Z0-9._+-]+@([a-zA-Z0-9-]+\\.)+[a-zA-Z]{2,}$") {
        Ok(re) => Some(re.is_match(input)),
        Err(_) => None,
    }
}

/// What `validate_email` decides: valid exactly when the input matches
/// the email pattern.
pub open spec fn email_spec(s: Seq<char>) -> ValidationSpec {
    if email_match(s) {
        ValidationSpec::Valid
    } else {
        ValidationSpec::Invalid("Invalid email format"@)
    }
}

/// Validate that the input is an email address: valid exactly when it
/// matches the email pattern.
pub fn validate_email(input: &str) -> (r: Result<Validation, ValidatorError>)
    ensures
        r matches Ok(v) && v@ == email_spec(input@),
{
    match email_pattern_match(input) {
        Some(true) => Ok(Validation::Valid),
        Some(false) => Ok(Validation::Invalid(String::from_str("Invalid email format"))),
        None => Err(ValidatorError::PatternFailed),
    }
}

/// What `validate_password` decides: at least eight bytes.
pub open spec fn password_spec(s: &str) -> ValidationSpec {
    if s.spec_bytes().len() as usize >= 8 {
        ValidationSpec::Valid
    } else {
        ValidationSpec::Invalid("Password must be at least 8 characters long"@)
    }
}

/// Validate that the password is at least eight bytes long.
pub fn validate_password(input: &str) -> (r: Result<Validation, ValidatorError>)
    ensures
        r matches Ok(v) && v@ == password_spec(input),
{
    if input.len() >= 8 {
        Ok(Validation::Valid)
    } else {
        Ok(Validation::Invalid(String::from_str("Password must be at least 8 characters long")))
    }
}

/// The commit types the authoring assistant accepts.
pub open spec fn commit_type_names() -> Seq<Seq<char>> {
    seq![
        "feat"@,
        "fix"@,
        "docs"@,
        "style"@,
        "refactor"@,
        "perf"@,
        "test"@,
        "chore"@,
        "ci"@,
        "build"@,
    ]
}

/// The commit types the authoring assistant accepts, in order.
pub fn valid_types() -> (r: Vec<&'static str>)
    ensures
        r@.len() == commit_type_names().len(),
        forall|i: int| 0 <= i < r@.len() ==> r@[i]@ == commit_type_names()[i],
{
    let mut v: Vec<&'static str> = Vec::new();
    v.push("feat");
    v.push("fix");
    v.push("docs");
    v.push("style");
    v.push("refactor");
    v.push("perf");
    v.push("test");
    v.push("chore");
    v.push("ci");
    v.push("build");
    v
}

/// What `validate_commit_type` decides: the trimmed input must be one of
/// the accepted commit types.
pub open spec fn commit_type_spec(s: Seq<char>) -> ValidationSpec {
    if commit_type_names().contains(trim_spec(s)) {
        ValidationSpec::Valid
    } else {
        ValidationSpec::Invalid(
            "Type '"@ + trim_spec(s)
                + "' invalide. Must be one of: feat, fix, docs, style, refactor, perf, test, chore, ci, build"@,
        )
    }
}

/// Validate that the input, trimmed, is one of the accepted commit types.
pub fn validate_commit_type(input: &str) -> (r: Result<Validation, ValidatorError>)
    ensures
        r matches Ok(v) && v@ == commit_type_spec(input@),
{
    let t = trim(input);
    let types = valid_types();
    let mut i: usize = 0;
    while i < types.len()
        invariant
            t@ == trim_spec(input@),
            types@.len() == commit_type_names().len(),
            forall|k: int| 0 <= k < types@.len() ==> types@[k]@ == commit_type_names()[k],
            i <= types@.len(),
            forall|k: int| 0 <= k < i ==> commit_type_names()[k] != t@,
        decreases types@.len() - i,
    {
        if str_eq(t, types[i]) {
            return Ok(Validation::Valid);
        }
        i += 1;
    }
    let mut m = String::from_str("Type '");
    m.append(t);
    m.append(
        "' invalide. Must be one of: feat, fix, docs, style, refactor, perf, test, chore, ci, build",
    );
    Ok(Validation::Invalid(m))
}

/// What `validate_summary_length` decides: the trimmed summary must be at
/// most fifty bytes.
pub open spec fn summary_length_spec(s: Seq<char>) -> ValidationSpec {
    if vstd::utf8::encode_utf8(trim_spec(s)).len() as usize > 50 {
        ValidationSpec::Invalid(
            "Summary is too long : "@ + dec_spec(
                (vstd::utf8::encode_utf8(trim_spec(s)).len() as usize) as int,
            ) + " chars. The lim is 50."@,
        )
    } else {
        ValidationSpec::Valid
    }
}

/// Validate that the summary, trimmed, is at most fifty bytes long.
pub fn validate_summary_length(input: &str) -> (r: Result<Validation, ValidatorError>)
    ensures
        r matches Ok(v) && v@ == summary_length_spec(input@),
{
    let t = trim(input);
    let len = t.len();
    if len > 50 {
        let mut m = String::from_str("Summary is too long : ");
        let digits = usize_to_string(len);
        m.append(digits.as_str());
        m.append(" chars. The lim is 50.");
        Ok(Validation::Invalid(m))
    } else {
        Ok(Validation::Valid)
    }
}

/// What `validate_summary_punctuation` decides: the trimmed summary must
/// not end with a period.
pub open spec fn summary_punctuation_spec(s: Seq<char>) -> ValidationSpec {
    if trim_spec(s).len() > 0 && trim_spec(s).last() == '.' {
        ValidationSpec::Invalid("Summary should not end with a period."@)
    } else {
        ValidationSpec::Valid
    }
}

/// Validate that the summary, trimmed, does not end with a period.
pub fn validate_summary_punctuation(input: &str) -> (r: Result<Validation, ValidatorError>)
    ensures
        r matches Ok(v) && v@ == summary_punctuation_spec(input@),
{
    let t = trim(input);
    let n = t.unicode_len();
    if n > 0 && t.get_char(n - 1) == '.' {
        Ok(Validation::Invalid(String::from_str("Summary should not end with a period.")))
    } else {
        Ok(Validation::Valid)
    }
}

/// The first twenty characters of a line, shown in the complaint about an
/// overlong line.
pub open spec fn truncated_line(line: Seq<char>) -> Seq<char> {
    if line.len() <= 20 {
        line
    } else {
        line.take(20)
    }
}

/// The complaint about one overlong body line.
pub open spec fn line_complaint(line: Seq<char>) -> Seq<char> {
    "The line \""@ + truncated_line(line) + "...\" is too long ("@ + dec_spec(
        (vstd::utf8::encode_utf8(line).len() as usize) as int,
    ) + " chars). Limit: 72."@
}

/// What `validate_body_line_length` decides over the body's lines: the
/// first line over seventy-two bytes, if any, is reported.
pub open spec fn body_verdict(ls: Seq<Seq<char>>) -> ValidationSpec
    decreases ls.len(),
{
    if ls.len() == 0 {
        ValidationSpec::Valid
    } else if vstd::utf8::encode_utf8(ls[0]).len() as usize > 72 {
        ValidationSpec::Invalid(line_complaint(ls[0]))
    } else {
        body_verdict(ls.drop_first())
    }
}

/// What `validate_body_line_length` decides for the whole body.
pub open spec fn body_line_length_spec(s: Seq<char>) -> ValidationSpec {
    body_verdict(lines_of(s))
}

/// Validate that each line of the body is at most seventy-two bytes long.
pub fn validate_body_line_length(input: &str) -> (r: Result<Validation, ValidatorError>)
    ensures
        r matches Ok(v) && v@ == body_line_length_spec(input@),
{
    let lines = split_lines(input);
    let ghost all = string_views(lines@);
    let mut i: usize = 0;
    proof {
        assert(all.skip(0) =~= all);
    }
    while i < lines.len()
        invariant
            all == string_views(lines@),
            all == lines_of(input@),
            i <= lines@.len(),
            body_verdict(lines_of(input@)) == body_verdict(all.skip(i as int)),
        decreases lines@.len() - i,
    {
        let line = &lines[i];
        proof {
            assert(all.skip(i as int)[0] == all[i as int]);
        }
        if line.as_str().len() > 72 {
            let ul = line.as_str().unicode_len();
            let k = if ul < 20 {
                ul
            } else {
                20
            };
            let tr = line.as_str().substring_char(0, k);
            proof {
                assert(line@.subrange(0, k as int) =~= truncated_line(line@));
            }
            let mut m = String::from_str("The line \"");
            m.append(tr);
            m.append("...\" is too long (");
            let digits = usize_to_string(line.as_str().len());
            m.append(digits.as_str());
            m.append(" chars). Limit: 72.");
            return Ok(Validation::Invalid(m));
        }
        i += 1;
        proof {
            assert(all.skip(i - 1).drop_first() =~= all.skip(i as int));
        }
    }
    proof {
        assert(all.skip(lines@.len() as int) =~= Seq::<Seq<char>>::empty());
    }
    Ok(Validation::Valid)
}

/// The cleaned words the spell check looks up, in order: each word of the
/// input reduced to its alphabetic characters, with empty results dropped.
pub open spec fn clean_words_spec(s: Seq<char>) -> Seq<Seq<char>> {
    drop_empty_spec(words_of(s).map_values(|w: Seq<char>| alpha_only(w)))
}

/// The words the spell check will look up: the input's whitespace-separated
/// words reduced to their alphabetic characters, skipping words with none.
pub fn clean_words(input: &str) -> (r: Vec<String>)
    ensures
        string_views(r@) == clean_words_spec(input@),
{
    let words = split_words(input);
    let ghost cleaned = words_of(input@).map_values(|w: Seq<char>| alpha_only(w));
    let mut out: Vec<String> = Vec::new();
    let mut i: usize = 0;
    proof {
        assert(cleaned.skip(0) =~= cleaned);
        assert(string_views(out@) =~= Seq::<Seq<char>>::empty());
        assert(Seq::<Seq<char>>::empty() + drop_empty_spec(cleaned) =~= drop_empty_spec(cleaned));
    }
    while i < words.len()
        invariant
            string_views(words@) == words_of(input@),
            cleaned == words_of(input@).map_values(|w: Seq<char>| alpha_only(w)),
            i <= words@.len(),
            clean_words_spec(input@) == string_views(out@) + drop_empty_spec(
                cleaned.skip(i as int),
            ),
        decreases words@.len() - i,
    {
        let ghost prev_out = out@;
        proof {
            assert(cleaned.skip(i as int)[0] == cleaned[i as int]);
            assert(cleaned[i as int] == alpha_only(words@[i as int]@));
        }
        let c = clean_word(words[i].as_str());
        if !c.as_str().is_empty() {
            let ghost cv = c@;
            out.push(c);
            proof {
                assert(string_views(out@) =~= string_views(prev_out) + seq![cv]);
            }
        }
        i += 1;
        proof {
            assert(cleaned.skip(i - 1).drop_first() =~= cleaned.skip(i as int));
            if cleaned[i - 1].len() > 0 {
                assert(string_views(prev_out) + (seq![cleaned[i - 1]] + drop_empty_spec(
                    cleaned.skip(i as int),
                )) =~= string_views(out@) + drop_empty_spec(cleaned.skip(i as int)));
            }
        }
    }
    proof {
        assert(cleaned.skip(words@.len() as int) =~= Seq::<Seq<char>>::empty());
        assert(string_views(out@) + Seq::<Seq<char>>::empty() =~= string_views(out@));
    }
    out
}

/// The complaint about one word missing from the dictionary, carrying the
/// dictionary's suggestions.
pub open spec fn spelling_complaint_spec(word: Seq<char>, suggestions: Seq<Seq<char>>) -> Seq<
    char,
> {
    "Spelling error: '"@ + word + "'. Suggestions: ["@ + join_spec(suggestions, ", "@) + "]"@
}

/// The decision for one looked-up word: a word the dictionary knows (no
/// suggestions came back) passes; a missing word yields the complaint
/// carrying the dictionary's suggestions.
pub fn spelling_verdict(word: &str, lookup: &Option<Vec<String>>) -> (r: Option<Validation>)
    ensures
        lookup is None <==> r is None,
        lookup matches Some(suggestions) ==> (r matches Some(v) && v@
            == ValidationSpec::Invalid(
            spelling_complaint_spec(word@, string_views(suggestions@)),
        )),
{
    match lookup {
        Some(suggestions) => Some(spelling_complaint(word, suggestions)),
        None => None,
    }
}

/// The verdict for a word the dictionary does not know, with the
/// dictionary's suggestions for it.
pub fn spelling_complaint(word: &str, suggestions: &Vec<String>) -> (r: Validation)
    ensures
        r@ == ValidationSpec::Invalid(
            spelling_complaint_spec(word@, string_views(suggestions@)),
        ),
{
    let mut m = String::from_str("Spelling error: '");
    m.append(word);
    m.append("'. Suggestions: [");
    let joined = join(suggestions, ", ");
    m.append(joined.as_str());
    m.append("]");
    Validation::Invalid(m)
}

} // verus!
