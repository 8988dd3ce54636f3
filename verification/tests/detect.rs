use breathe::catalog::Hook;
use breathe::detect::{detect, detect_from};
use breathe::engine::{
    hook_succeeded, log_paths, run_verdict, EcosystemOutcome, Engine, RunError,
};
use breathe::language::Language;

// Rule order: Rust, Typescript, Haskell, D, Javascript, CSharp, Maven, Go,
// Ruby, Dart, Gradle, Kotlin, Swift, Php, CMake, Elixir, Python.
fn counts(pairs: &[(usize, usize)]) -> Vec<usize> {
    let mut v = vec![0usize; 17];
    for &(idx, n) in pairs {
        v[idx] = n;
    }
    v
}

#[test]
fn nothing_on_disk_detects_nothing() {
    assert_eq!(detect_from(&counts(&[])), Vec::<Language>::new());
}

#[test]
fn one_manifest_detects_one_ecosystem() {
    assert_eq!(detect_from(&counts(&[(7, 1)])), vec![Language::Go]);
}

#[test]
fn detections_come_in_registry_order() {
    let detected = detect_from(&counts(&[(16, 1), (7, 1), (0, 1)]));
    assert_eq!(detected, vec![Language::Rust, Language::Go, Language::Python]);
}

#[test]
fn a_plain_rule_counts_at_most_once() {
    // A plain filename either exists or does not; even a larger count
    // records a single detection.
    assert_eq!(detect_from(&counts(&[(7, 3)])), vec![Language::Go]);
}

#[test]
fn a_glob_rule_counts_every_matching_file() {
    // Two project files under a glob rule run that ecosystem's hooks twice;
    // callers must dedupe themselves if they want uniqueness.
    assert_eq!(
        detect_from(&counts(&[(5, 2)])),
        vec![Language::CSharp, Language::CSharp]
    );
}

#[test]
fn the_probe_reports_only_registry_ecosystems() {
    // Whatever the working directory holds, every detection names a
    // registry ecosystem; the probe cannot invent others.
    let langs = breathe::language::registry_languages();
    for l in detect() {
        assert!(langs.contains(&l), "{:?} is not a registry ecosystem", l);
    }
}

#[test]
fn a_go_only_directory_runs_two_go_hooks() {
    // Working directory holds only go.mod: detection is [Go], the Go
    // catalog holds its two hooks, the log tree gets one stdout and one
    // stderr file per hook, and the run succeeds iff both commands exit 0.
    let detected = detect_from(&counts(&[(7, 1)]));
    assert_eq!(detected, vec![Language::Go]);

    let hooks = Hook::get(detected[0], false);
    assert_eq!(hooks.len(), 2);
    assert_eq!(hooks[0].file, "test.log");
    assert_eq!(hooks[1].file, "audit.log");

    let (outs, errs) = log_paths(&hooks);
    assert_eq!(outs, vec!["breathes/Go/stdout/test.log", "breathes/Go/stdout/audit.log"]);
    assert_eq!(errs, vec!["breathes/Go/stderr/test.log", "breathes/Go/stderr/audit.log"]);

    let mut engine = Engine::new(hooks);
    engine.record(hook_succeeded(Some(0)));
    engine.record(hook_succeeded(Some(0)));
    let (all_ok, took) = engine.outcome(1);
    assert!(all_ok);
    let outcome = EcosystemOutcome {
        language: Language::Go,
        all_succeeded: all_ok,
        elapsed_seconds: took,
    };
    assert_eq!(run_verdict(&vec![outcome]), Ok(0));

    let mut engine = Engine::new(Hook::get(Language::Go, false));
    engine.record(hook_succeeded(Some(0)));
    engine.record(hook_succeeded(Some(2)));
    let (all_ok, took) = engine.outcome(1);
    assert!(!all_ok);
    let outcome = EcosystemOutcome {
        language: Language::Go,
        all_succeeded: all_ok,
        elapsed_seconds: took,
    };
    assert_eq!(run_verdict(&vec![outcome]), Err(RunError::ChecksFailed));
}
