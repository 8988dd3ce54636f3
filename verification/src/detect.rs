//! The detector: probes the working directory for each registry rule's
//! manifest pattern and turns the match counts into the ordered list of
//! detected ecosystems.
//!
//! A glob rule can match several files and then records one detection per
//! match, so the same ecosystem may legitimately appear more than once;
//! callers must not assume uniqueness without deduplicating.

use crate::language::{glob_rule, registry, registry_languages, Language};
use vstd::prelude::*;

verus! {

/// The detections one rule contributes: a glob rule records one detection
/// per matching regular file; a plain-filename rule records at most one.
pub open spec fn detections_for(l: Language, count: usize) -> Seq<Language> {
    if glob_rule(l) {
        Seq::new(count as nat, |i: int| l)
    } else if count > 0 {
        seq![l]
    } else {
        Seq::empty()
    }
}

/// The detections contributed by the first `n` registry rules, given each
/// rule's count of matching regular files.
pub open spec fn detect_prefix(counts: Seq<usize>, n: int) -> Seq<Language>
    decreases n,
{
    if n <= 0 {
        Seq::empty()
    } else {
        detect_prefix(counts, n - 1) + detections_for(registry()[n - 1], counts[n - 1])
    }
}

/// What the detector returns for given probe results: the contribution of
/// every registry rule, in registry order.
pub open spec fn detect_spec(counts: Seq<usize>) -> Seq<Language> {
    detect_prefix(counts, registry().len() as int)
}

#[verifier::external_type_specification]
#[verifier::external_body]
pub struct ExPathBuf(std::path::PathBuf);

/// Relies on glob::glob: expands the pattern against the current working
/// directory and yields the matching paths; unreadable matches are dropped,
/// and a malformed pattern contributes no matches rather than aborting the
/// scan.
#[verifier::external_body]
fn glob_matches(pattern: &str) -> (r: Vec<std::path::PathBuf>) {
    match glob::glob(pattern) {
        Ok(paths) => paths.filter_map(Result::ok).collect(),
        Err(_) => Vec::new(),
    }
}

/// Relies on std::path::Path::is_file: whether the path names an existing
/// regular file on disk.
#[verifier::external_body]
fn path_is_file(p: &std::path::PathBuf) -> (r: bool) {
    p.is_file()
}

/// How many regular files the pattern matches in the working directory.
fn count_file_matches(pattern: &str) -> (r: usize) {
    let paths = glob_matches(pattern);
    let mut n: usize = 0;
    let mut i: usize = 0;
    while i < paths.len()
        invariant
            n <= i,
            i <= paths@.len(),
        decreases paths@.len() - i,
    {
        if path_is_file(&paths[i]) {
            n += 1;
        }
        i += 1;
    }
    n
}

/// Record the detections that one rule contributes, given how many regular
/// files matched its pattern.
pub fn add_detections(language: Language, count: usize, vec: &mut Vec<Language>)
    ensures
        final(vec)@ == old(vec)@ + detections_for(language, count),
{
    if language.is_glob_rule() {
        let mut k: usize = 0;
        proof {
            assert(vec@ =~= old(vec)@ + Seq::new(0, |i: int| language));
        }
        while k < count
            invariant
                glob_rule(language),
                k <= count,
                vec@ == old(vec)@ + Seq::new(k as nat, |i: int| language),
            decreases count - k,
        {
            vec.push(language);
            proof {
                assert(vec@ =~= old(vec)@ + Seq::new((k + 1) as nat, |i: int| language));
            }
            k += 1;
        }
        proof {
            assert(vec@ =~= old(vec)@ + detections_for(language, count));
        }
    } else if count > 0 {
        vec.push(language);
        proof {
            assert(vec@ =~= old(vec)@ + detections_for(language, count));
        }
    } else {
        proof {
            assert(vec@ =~= old(vec)@ + detections_for(language, count));
        }
    }
}

/// Turn the per-rule probe results into the detected ecosystems, in
/// registry order.
pub fn detect_from(counts: &Vec<usize>) -> (r: Vec<Language>)
    requires
        counts@.len() == registry().len(),
    ensures
        r@ == detect_spec(counts@),
{
    let langs = registry_languages();
    let mut r: Vec<Language> = Vec::new();
    let mut i: usize = 0;
    while i < langs.len()
        invariant
            langs@ == registry(),
            counts@.len() == registry().len(),
            i <= registry().len(),
            r@ == detect_prefix(counts@, i as int),
        decreases registry().len() - i,
    {
        add_detections(langs[i], counts[i], &mut r);
        i += 1;
    }
    r
}

/// Probe the working directory: for each registry rule, in order, the
/// number of regular files matching its pattern.
pub fn probe_counts() -> (r: Vec<usize>)
    ensures
        r@.len() == registry().len(),
{
    let langs = registry_languages();
    let mut counts: Vec<usize> = Vec::new();
    let mut i: usize = 0;
    while i < langs.len()
        invariant
            langs@ == registry(),
            counts@.len() == i,
            i <= registry().len(),
        decreases registry().len() - i,
    {
        counts.push(count_file_matches(Language::get_file(langs[i])));
        i += 1;
    }
    counts
}

proof fn lemma_detect_prefix_elements(counts: Seq<usize>, n: int)
    requires
        counts.len() == registry().len(),
        0 <= n <= registry().len(),
    ensures
        forall|i: int|
            0 <= i < detect_prefix(counts, n).len() ==> registry().contains(
                #[trigger] detect_prefix(counts, n)[i],
            ),
    decreases n,
{
    if n > 0 {
        lemma_detect_prefix_elements(counts, n - 1);
        let prev = detect_prefix(counts, n - 1);
        let added = detections_for(registry()[n - 1], counts[n - 1]);
        assert forall|i: int|
            0 <= i < detect_prefix(counts, n).len() implies registry().contains(
            detect_prefix(counts, n)[i],
        ) by {
            if i < prev.len() {
                assert(detect_prefix(counts, n)[i] == prev[i]);
            } else {
                assert(detect_prefix(counts, n)[i] == added[i - prev.len()]);
                assert(added[i - prev.len()] == registry()[n - 1]);
                assert(registry().contains(registry()[n - 1]));
            }
        }
    }
}

/// Scan the working directory against every registry rule, in order. The
/// result is exactly `detect_spec` of what the filesystem probe found, so
/// every detection names a registry ecosystem; an empty result means no
/// ecosystem is present and is a reportable condition, not a silent no-op.
pub fn detect() -> (r: Vec<Language>)
    ensures
        exists|counts: Seq<usize>|
            counts.len() == registry().len() && r@ == detect_spec(counts),
        forall|i: int| 0 <= i < r@.len() ==> registry().contains(#[trigger] r@[i]),
{
    let counts = probe_counts();
    let r = detect_from(&counts);
    proof {
        assert(counts@.len() == registry().len() && r@ == detect_spec(counts@));
        lemma_detect_prefix_elements(counts@, registry().len() as int);
    }
    r
}

} // verus!
