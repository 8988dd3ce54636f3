use breathe::language::Language;

fn all_languages() -> Vec<Language> {
    vec![
        Language::Unknown,
        Language::R,
        Language::Javascript,
        Language::Typescript,
        Language::Haskell,
        Language::D,
        Language::Rust,
        Language::Python,
        Language::Go,
        Language::Php,
        Language::Ruby,
        Language::CMake,
        Language::CSharp,
        Language::Maven,
        Language::Kotlin,
        Language::Gradle,
        Language::Swift,
        Language::Dart,
        Language::Elixir,
    ]
}

#[test]
fn every_name_round_trips() {
    for l in all_languages() {
        assert_eq!(Language::parse_name(l.name()), l, "round trip failed for {:?}", l);
    }
}

#[test]
fn the_r_name_round_trips_too() {
    assert_eq!(Language::R.name(), "R");
    assert_eq!(Language::parse_name("R"), Language::R);
    assert_eq!(Language::from(String::from("R")), Language::R);
}

#[test]
fn unrecognized_names_parse_to_unknown() {
    assert_eq!(Language::parse_name(""), Language::Unknown);
    assert_eq!(Language::parse_name("rust"), Language::Unknown);
    assert_eq!(Language::parse_name("Node"), Language::Unknown);
    assert_eq!(Language::parse_name("Javascript "), Language::Unknown);
}

#[test]
fn from_string_parses_canonical_names() {
    assert_eq!(Language::from(String::from("Rust")), Language::Rust);
    assert_eq!(Language::from(String::from("Haskell")), Language::Haskell);
    assert_eq!(Language::from(String::from("gophers")), Language::Unknown);
}

#[test]
fn canonical_names_are_exact() {
    assert_eq!(Language::Javascript.name(), "Javascript");
    assert_eq!(Language::CSharp.name(), "CSharp");
    assert_eq!(Language::CMake.name(), "CMake");
    assert_eq!(Language::Unknown.name(), "Unknown");
}

#[test]
fn manifest_patterns_are_exact() {
    assert_eq!(Language::get_file(Language::Rust), "Cargo.toml");
    assert_eq!(Language::get_file(Language::Go), "go.mod");
    assert_eq!(Language::get_file(Language::CSharp), "*.csproj");
    assert_eq!(Language::get_file(Language::Haskell), "*.cabal");
    assert_eq!(Language::get_file(Language::D), "dub.json");
    assert_eq!(Language::get_file(Language::Unknown), "");
    assert_eq!(Language::get_file(Language::R), "");
}

#[test]
fn exactly_the_glob_rules_are_glob() {
    for l in all_languages() {
        let expect = matches!(l, Language::CSharp | Language::D | Language::Haskell);
        assert_eq!(l.is_glob_rule(), expect, "glob rule wrong for {:?}", l);
    }
}

#[test]
fn registry_lists_every_detectable_ecosystem_once_in_order() {
    let langs = breathe::language::registry_languages();
    assert_eq!(
        langs,
        vec![
            Language::Rust,
            Language::Typescript,
            Language::Haskell,
            Language::D,
            Language::Javascript,
            Language::CSharp,
            Language::Maven,
            Language::Go,
            Language::Ruby,
            Language::Dart,
            Language::Gradle,
            Language::Kotlin,
            Language::Swift,
            Language::Php,
            Language::CMake,
            Language::Elixir,
            Language::Python,
        ]
    );
}
