use breathe::catalog::Hook;
use breathe::language::Language;

#[test]
fn unknown_and_r_have_no_hooks() {
    assert_eq!(Hook::get(Language::Unknown, false).len(), 0);
    assert_eq!(Hook::get(Language::Unknown, true).len(), 0);
    assert_eq!(Hook::get(Language::R, false).len(), 0);
}

#[test]
fn catalog_sizes_match_the_registry_tables() {
    assert_eq!(Hook::get(Language::D, false).len(), 2);
    assert_eq!(Hook::get(Language::Haskell, false).len(), 3);
    assert_eq!(Hook::get(Language::Typescript, false).len(), 6);
    assert_eq!(Hook::get(Language::Maven, false).len(), 4);
    assert_eq!(Hook::get(Language::Gradle, false).len(), 3);
    assert_eq!(Hook::get(Language::Javascript, false).len(), 4);
    assert_eq!(Hook::get(Language::Rust, false).len(), 8);
    assert_eq!(Hook::get(Language::Python, false).len(), 2);
    assert_eq!(Hook::get(Language::Go, false).len(), 2);
    assert_eq!(Hook::get(Language::Php, false).len(), 4);
    assert_eq!(Hook::get(Language::Ruby, false).len(), 3);
    assert_eq!(Hook::get(Language::CMake, false).len(), 3);
    assert_eq!(Hook::get(Language::CSharp, false).len(), 5);
    assert_eq!(Hook::get(Language::Swift, false).len(), 5);
    assert_eq!(Hook::get(Language::Dart, false).len(), 4);
    assert_eq!(Hook::get(Language::Kotlin, false).len(), 1);
    assert_eq!(Hook::get(Language::Elixir, false).len(), 5);
}

#[test]
fn go_catalog_is_test_then_audit() {
    let hooks = Hook::get(Language::Go, false);
    assert_eq!(hooks.len(), 2);
    assert_eq!(hooks[0].language, Language::Go);
    assert_eq!(hooks[0].command, "go test -v");
    assert_eq!(hooks[0].file, "test.log");
    assert_eq!(hooks[0].description, "Testing your project");
    assert_eq!(hooks[0].success, "Tests passed");
    assert_eq!(hooks[0].failure, "Tests failed");
    assert_eq!(hooks[1].language, Language::Go);
    assert_eq!(hooks[1].command, "go list -u -m -json all");
    assert_eq!(hooks[1].file, "audit.log");
    assert_eq!(hooks[1].description, "Checking for security vulnerabilities");
}

#[test]
fn rust_catalog_keeps_its_order() {
    let hooks = Hook::get(Language::Rust, false);
    let commands: Vec<&str> = hooks.iter().map(|h| h.command).collect();
    assert_eq!(
        commands,
        vec![
            "cargo verify-project",
            "cargo check",
            "cargo audit",
            "cargo fmt --check",
            "cargo clippy -- -D clippy::all -W warnings -D clippy::pedantic -D clippy::nursery -A clippy::multiple_crate_versions",
            "cargo test --no-fail-fast",
            "cargo doc --no-deps --document-private-items",
            "cargo outdated",
        ]
    );
}

#[test]
fn typescript_catalog_starts_with_the_javascript_hooks() {
    let js = Hook::get(Language::Javascript, false);
    let ts = Hook::get(Language::Typescript, false);
    assert_eq!(ts.len(), js.len() + 2);
    for (a, b) in js.iter().zip(ts.iter()) {
        assert_eq!(a.language, b.language);
        assert_eq!(a.command, b.command);
        assert_eq!(a.file, b.file);
    }
    assert_eq!(ts[4].command, "npx tsc --noEmit");
    assert_eq!(ts[5].command, "npx prettier --check .");
}

#[test]
fn gradle_commands_follow_the_platform() {
    let posix = Hook::get(Language::Gradle, false);
    assert_eq!(posix[0].command, "gradlew build");
    assert_eq!(posix[1].command, "gradlew test");
    assert_eq!(posix[2].command, "gradlew test");
    let windows = Hook::get(Language::Gradle, true);
    assert_eq!(windows[0].command, "gradlew.bat build");
    assert_eq!(windows[1].command, "gradlew.bat test");
    assert_eq!(windows[2].command, "gradlew.bat test");
}

#[test]
fn every_hook_carries_its_own_language() {
    for l in [
        Language::D,
        Language::Haskell,
        Language::Maven,
        Language::Javascript,
        Language::Rust,
        Language::Python,
        Language::Go,
        Language::Php,
        Language::Ruby,
        Language::CMake,
        Language::CSharp,
        Language::Swift,
        Language::Dart,
        Language::Kotlin,
        Language::Elixir,
        Language::Gradle,
    ] {
        for h in Hook::get(l, false) {
            assert_eq!(h.language, l, "stray language in catalog of {:?}", l);
        }
    }
}
