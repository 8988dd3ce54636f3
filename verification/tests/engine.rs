use breathe::catalog::Hook;
use breathe::engine::{
    check_detected, ecosystem_dir, global_success, hook_succeeded, log_paths, run_verdict,
    stderr_dir, stderr_file, stdout_dir, stdout_file, EcosystemOutcome, Engine, RunError,
};
use breathe::language::Language;

#[test]
fn empty_hook_list_is_vacuous_success() {
    let engine = Engine::new(Hook::get(Language::Unknown, false));
    assert!(engine.is_complete());
    assert_eq!(engine.outcome(0), (true, 0));
}

#[test]
fn r_hook_list_is_vacuous_success_too() {
    let engine = Engine::new(Hook::get(Language::R, false));
    assert!(engine.is_complete());
    assert_eq!(engine.outcome(0), (true, 0));
}

#[test]
fn hooks_run_in_catalog_order() {
    let hooks = Hook::get(Language::D, false);
    let mut engine = Engine::new(hooks);
    assert!(!engine.is_complete());
    assert_eq!(engine.current().command, "dub build");
    engine.record(true);
    assert!(!engine.is_complete());
    assert_eq!(engine.current().command, "dub test");
    engine.record(true);
    assert!(engine.is_complete());
    assert_eq!(engine.outcome(3), (true, 3));
}

#[test]
fn one_failure_does_not_stop_the_remaining_hooks() {
    let hooks = Hook::get(Language::Haskell, false);
    assert_eq!(hooks.len(), 3);
    let mut engine = Engine::new(hooks);
    engine.record(true);
    assert!(!engine.is_complete(), "a failure must not end the run early");
    engine.record(false);
    assert!(!engine.is_complete(), "a failure must not end the run early");
    engine.record(true);
    assert!(engine.is_complete());
    assert_eq!(engine.outcome(7), (false, 7));
}

#[test]
fn exit_code_zero_is_the_only_success() {
    assert!(hook_succeeded(Some(0)));
    assert!(!hook_succeeded(Some(1)));
    assert!(!hook_succeeded(Some(-1)));
    assert!(!hook_succeeded(None));
}

#[test]
fn log_tree_paths_are_partitioned_by_ecosystem() {
    assert_eq!(ecosystem_dir(Language::Go), "breathes/Go");
    assert_eq!(stdout_dir(Language::Go), "breathes/Go/stdout");
    assert_eq!(stderr_dir(Language::Go), "breathes/Go/stderr");
    let hooks = Hook::get(Language::Go, false);
    assert_eq!(stdout_file(&hooks[0]), "breathes/Go/stdout/test.log");
    assert_eq!(stderr_file(&hooks[0]), "breathes/Go/stderr/test.log");
    assert_eq!(stdout_file(&hooks[1]), "breathes/Go/stdout/audit.log");
    assert_eq!(stderr_file(&hooks[1]), "breathes/Go/stderr/audit.log");
}

#[test]
fn one_stdout_and_one_stderr_file_per_hook() {
    let hooks = Hook::get(Language::Rust, false);
    let (outs, errs) = log_paths(&hooks);
    assert_eq!(outs.len(), hooks.len());
    assert_eq!(errs.len(), hooks.len());
    for (i, h) in hooks.iter().enumerate() {
        assert!(outs[i].ends_with(h.file), "{} does not name {}", outs[i], h.file);
        assert!(errs[i].ends_with(h.file), "{} does not name {}", errs[i], h.file);
        assert!(outs[i].starts_with("breathes/Rust/stdout/"));
        assert!(errs[i].starts_with("breathes/Rust/stderr/"));
    }
}

#[test]
fn empty_detection_is_fatal() {
    let r = check_detected(&vec![]);
    assert_eq!(r, Err(RunError::NoLanguageDetected));
    assert_eq!(RunError::NoLanguageDetected.message(), "No language detected");
}

#[test]
fn nonempty_detection_proceeds() {
    assert_eq!(check_detected(&vec![Language::Go]), Ok(()));
}

#[test]
fn global_success_is_the_and_over_all_ecosystems() {
    let a = EcosystemOutcome { language: Language::Rust, all_succeeded: true, elapsed_seconds: 4 };
    let b = EcosystemOutcome { language: Language::Go, all_succeeded: false, elapsed_seconds: 2 };
    assert!(global_success(&vec![]));
    assert!(global_success(&vec![a]));
    assert!(!global_success(&vec![a, b]));
    assert!(!global_success(&vec![b, a]));
}

#[test]
fn the_verdict_follows_global_success() {
    let a = EcosystemOutcome { language: Language::Rust, all_succeeded: true, elapsed_seconds: 4 };
    let b = EcosystemOutcome { language: Language::Go, all_succeeded: false, elapsed_seconds: 2 };
    assert_eq!(run_verdict(&vec![a]), Ok(0));
    assert_eq!(run_verdict(&vec![a, b]), Err(RunError::ChecksFailed));
    assert_eq!(RunError::ChecksFailed.message(), "Some checks failed.");
}
