//! The ecosystems the runner knows, their canonical names, and the manifest
//! file (or glob pattern) whose presence signals each of them.

use crate::text::str_eq;
use vstd::prelude::*;

verus! {

/// A programming-language / build-tool ecosystem, identified by a
/// characteristic manifest file in the working directory.
#[derive(Clone, Copy, Debug, Hash, Eq, PartialEq, Structural)]
pub enum Language {
    Unknown,
    R,
    Javascript,
    Typescript,
    Haskell,
    D,
    Rust,
    Python,
    Go,
    Php,
    Ruby,
    CMake,
    CSharp,
    Maven,
    Kotlin,
    Gradle,
    Swift,
    Dart,
    Elixir,
}

/// The canonical, human-readable name of an ecosystem.
pub open spec fn name_spec(l: Language) -> Seq<char> {
    match l {
        Language::Unknown => "Unknown"@,
        Language::R => "R"@,
        Language::Javascript => "Javascript"@,
        Language::Typescript => "Typescript"@,
        Language::Haskell => "Haskell"@,
        Language::D => "D"@,
        Language::Rust => "Rust"@,
        Language::Python => "Python"@,
        Language::Go => "Go"@,
        Language::Php => "Php"@,
        Language::Ruby => "Ruby"@,
        Language::CMake => "CMake"@,
        Language::CSharp => "CSharp"@,
        Language::Maven => "Maven"@,
        Language::Kotlin => "Kotlin"@,
        Language::Gradle => "Gradle"@,
        Language::Swift => "Swift"@,
        Language::Dart => "Dart"@,
        Language::Elixir => "Elixir"@,
    }
}

impl Language {
    /// The canonical name under which this ecosystem appears in log paths
    /// and in the run summary.
    pub fn name(self) -> (r: &'static str)
        ensures
            r@ == name_spec(self),
    {
        match self {
            Language::Unknown => "Unknown",
            Language::R => "R",
            Language::Javascript => "Javascript",
            Language::Typescript => "Typescript",
            Language::Haskell => "Haskell",
            Language::D => "D",
            Language::Rust => "Rust",
            Language::Python => "Python",
            Language::Go => "Go",
            Language::Php => "Php",
            Language::Ruby => "Ruby",
            Language::CMake => "CMake",
            Language::CSharp => "CSharp",
            Language::Maven => "Maven",
            Language::Kotlin => "Kotlin",
            Language::Gradle => "Gradle",
            Language::Swift => "Swift",
            Language::Dart => "Dart",
            Language::Elixir => "Elixir",
        }
    }
}

/// What parsing a name yields: the ecosystem with that canonical name, or
/// `Unknown` for anything else. Every canonical name is recognized, so a
/// name always parses back to its own ecosystem; "Unknown" needs no arm of
/// its own, being also the fallback.
pub open spec fn parse_spec(s: Seq<char>) -> Language {
    if s == name_spec(Language::Javascript) {
        Language::Javascript
    } else if s == name_spec(Language::Typescript) {
        Language::Typescript
    } else if s == name_spec(Language::Rust) {
        Language::Rust
    } else if s == name_spec(Language::Python) {
        Language::Python
    } else if s == name_spec(Language::Go) {
        Language::Go
    } else if s == name_spec(Language::Php) {
        Language::Php
    } else if s == name_spec(Language::Ruby) {
        Language::Ruby
    } else if s == name_spec(Language::CMake) {
        Language::CMake
    } else if s == name_spec(Language::CSharp) {
        Language::CSharp
    } else if s == name_spec(Language::Maven) {
        Language::Maven
    } else if s == name_spec(Language::Kotlin) {
        Language::Kotlin
    } else if s == name_spec(Language::Gradle) {
        Language::Gradle
    } else if s == name_spec(Language::Swift) {
        Language::Swift
    } else if s == name_spec(Language::Dart) {
        Language::Dart
    } else if s == name_spec(Language::Elixir) {
        Language::Elixir
    } else if s == name_spec(Language::D) {
        Language::D
    } else if s == name_spec(Language::Haskell) {
        Language::Haskell
    } else if s == name_spec(Language::R) {
        Language::R
    } else {
        Language::Unknown
    }
}

impl Language {
    /// Parse a canonical ecosystem name; unrecognized names yield `Unknown`.
    pub fn parse_name(s: &str) -> (r: Self)
        ensures
            r == parse_spec(s@),
    {
        if str_eq(s, "Javascript") {
            Self::Javascript
        } else if str_eq(s, "Typescript") {
            Self::Typescript
        } else if str_eq(s, "Rust") {
            Self::Rust
        } else if str_eq(s, "Python") {
            Self::Python
        } else if str_eq(s, "Go") {
            Self::Go
        } else if str_eq(s, "Php") {
            Self::Php
        } else if str_eq(s, "Ruby") {
            Self::Ruby
        } else if str_eq(s, "CMake") {
            Self::CMake
        } else if str_eq(s, "CSharp") {
            Self::CSharp
        } else if str_eq(s, "Maven") {
            Self::Maven
        } else if str_eq(s, "Kotlin") {
            Self::Kotlin
        } else if str_eq(s, "Gradle") {
            Self::Gradle
        } else if str_eq(s, "Swift") {
            Self::Swift
        } else if str_eq(s, "Dart") {
            Self::Dart
        } else if str_eq(s, "Elixir") {
            Self::Elixir
        } else if str_eq(s, "D") {
            Self::D
        } else if str_eq(s, "Haskell") {
            Self::Haskell
        } else if str_eq(s, "R") {
            Self::R
        } else {
            Self::Unknown
        }
    }
}

impl From<String> for Language {
    fn from(value: String) -> (r: Self) {
        Self::parse_name(value.as_str())
    }
}

impl vstd::std_specs::convert::FromSpecImpl<String> for Language {
    open spec fn obeys_from_spec() -> bool {
        true
    }

    open spec fn from_spec(value: String) -> Language {
        parse_spec(value@)
    }
}

/// The manifest filename, or glob pattern, whose presence in the working
/// directory signals an ecosystem. `Unknown` and `R` have none.
pub open spec fn pattern_spec(l: Language) -> Seq<char> {
    match l {
        Language::Javascript => "package.json"@,
        Language::Typescript => "tsconfig.json"@,
        Language::Haskell => "*.cabal"@,
        Language::Rust => "Cargo.toml"@,
        Language::Python => "requirements.txt"@,
        Language::Go => "go.mod"@,
        Language::Php => "composer.json"@,
        Language::Ruby => "Gemfile"@,
        Language::CMake => "CMakeLists.txt"@,
        Language::CSharp => "*.csproj"@,
        Language::Maven => "pom.xml"@,
        Language::Kotlin => "settings.gradle.kts"@,
        Language::Gradle => "settings.gradle"@,
        Language::Swift => "Package.swift"@,
        Language::Dart => "pubspec.yaml"@,
        Language::Elixir => "mix.exs"@,
        Language::D => "dub.json"@,
        Language::R | Language::Unknown => ""@,
    }
}

/// Whether an ecosystem's detection rule is a glob pattern rather than an
/// exact filename; a glob rule records one detection per matching file.
pub open spec fn glob_rule(l: Language) -> bool {
    l == Language::CSharp || l == Language::D || l == Language::Haskell
}

impl Language {
    /// The manifest file pattern that signals this ecosystem.
    pub fn get_file(language: Self) -> (r: &'static str)
        ensures
            r@ == pattern_spec(language),
    {
        match language {
            Language::Javascript => "package.json",
            Language::Typescript => "tsconfig.json",
            Language::Haskell => "*.cabal",
            Language::Rust => "Cargo.toml",
            Language::Python => "requirements.txt",
            Language::Go => "go.mod",
            Language::Php => "composer.json",
            Language::Ruby => "Gemfile",
            Language::CMake => "CMakeLists.txt",
            Language::CSharp => "*.csproj",
            Language::Maven => "pom.xml",
            Language::Kotlin => "settings.gradle.kts",
            Language::Gradle => "settings.gradle",
            Language::Swift => "Package.swift",
            Language::Dart => "pubspec.yaml",
            Language::Elixir => "mix.exs",
            Language::D => "dub.json",
            Language::R | Language::Unknown => "",
        }
    }

    /// Whether this ecosystem's detection rule is a glob pattern.
    pub fn is_glob_rule(self) -> (r: bool)
        ensures
            r == glob_rule(self),
    {
        match self {
            Language::CSharp | Language::D | Language::Haskell => true,
            _ => false,
        }
    }
}

/// The detection rules in the order the detector applies them: each
/// ecosystem appears exactly once, so detection order is deterministic.
pub open spec fn registry() -> Seq<Language> {
    seq![
        Language::Rust,
        Language::Typescript,
        Language::Haskell,
        Language::D,
        Language::Javascript,
        Language::CSharp,
        Language::Maven,
        Language::Go,
        Language::Ruby,
        Language::Dart,
        Language::Gradle,
        Language::Kotlin,
        Language::Swift,
        Language::Php,
        Language::CMake,
        Language::Elixir,
        Language::Python,
    ]
}

/// The ecosystems the detector probes for, in registry order.
pub fn registry_languages() -> (r: Vec<Language>)
    ensures
        r@ == registry(),
{
    let mut v: Vec<Language> = Vec::new();
    v.push(Language::Rust);
    v.push(Language::Typescript);
    v.push(Language::Haskell);
    v.push(Language::D);
    v.push(Language::Javascript);
    v.push(Language::CSharp);
    v.push(Language::Maven);
    v.push(Language::Go);
    v.push(Language::Ruby);
    v.push(Language::Dart);
    v.push(Language::Gradle);
    v.push(Language::Kotlin);
    v.push(Language::Swift);
    v.push(Language::Php);
    v.push(Language::CMake);
    v.push(Language::Elixir);
    v.push(Language::Python);
    proof {
        assert(v@ =~= registry());
    }
    v
}

// Each recognized name must be told apart from every name the parser
// tries before it. The lengths, stated once, settle most pairs; for
// names of equal length a differing character settles the rest. One
// small proof per ecosystem keeps each query cheap.
proof fn lemma_name_lengths()
    ensures
        name_spec(Language::Unknown).len() == 7,
        name_spec(Language::Javascript).len() == 10,
        name_spec(Language::Typescript).len() == 10,
        name_spec(Language::Rust).len() == 4,
        name_spec(Language::Python).len() == 6,
        name_spec(Language::Go).len() == 2,
        name_spec(Language::Php).len() == 3,
        name_spec(Language::Ruby).len() == 4,
        name_spec(Language::CMake).len() == 5,
        name_spec(Language::CSharp).len() == 6,
        name_spec(Language::Maven).len() == 5,
        name_spec(Language::Kotlin).len() == 6,
        name_spec(Language::Gradle).len() == 6,
        name_spec(Language::Swift).len() == 5,
        name_spec(Language::Dart).len() == 4,
        name_spec(Language::Elixir).len() == 6,
        name_spec(Language::D).len() == 1,
        name_spec(Language::Haskell).len() == 7,
        name_spec(Language::R).len() == 1,
{
    reveal_strlit("Unknown");
    reveal_strlit("Javascript");
    reveal_strlit("Typescript");
    reveal_strlit("Rust");
    reveal_strlit("Python");
    reveal_strlit("Go");
    reveal_strlit("Php");
    reveal_strlit("Ruby");
    reveal_strlit("CMake");
    reveal_strlit("CSharp");
    reveal_strlit("Maven");
    reveal_strlit("Kotlin");
    reveal_strlit("Gradle");
    reveal_strlit("Swift");
    reveal_strlit("Dart");
    reveal_strlit("Elixir");
    reveal_strlit("D");
    reveal_strlit("Haskell");
    reveal_strlit("R");
}

proof fn round_trip_unknown()
    ensures
        parse_spec(name_spec(Language::Unknown)) == Language::Unknown,
{
    lemma_name_lengths();
    reveal_strlit("Unknown");
    reveal_strlit("Haskell");
    assert(name_spec(Language::Unknown)[0] != name_spec(Language::Haskell)[0]);
    assert(name_spec(Language::Unknown) != name_spec(Language::Haskell));
}

proof fn round_trip_javascript()
    ensures
        parse_spec(name_spec(Language::Javascript)) == Language::Javascript,
{
    lemma_name_lengths();
}

proof fn round_trip_typescript()
    ensures
        parse_spec(name_spec(Language::Typescript)) == Language::Typescript,
{
    lemma_name_lengths();
    reveal_strlit("Typescript");
    reveal_strlit("Javascript");
    assert(name_spec(Language::Typescript)[0] != name_spec(Language::Javascript)[0]);
    assert(name_spec(Language::Typescript) != name_spec(Language::Javascript));
}

proof fn round_trip_rust()
    ensures
        parse_spec(name_spec(Language::Rust)) == Language::Rust,
{
    lemma_name_lengths();
}

proof fn round_trip_python()
    ensures
        parse_spec(name_spec(Language::Python)) == Language::Python,
{
    lemma_name_lengths();
}

proof fn round_trip_go()
    ensures
        parse_spec(name_spec(Language::Go)) == Language::Go,
{
    lemma_name_lengths();
}

proof fn round_trip_php()
    ensures
        parse_spec(name_spec(Language::Php)) == Language::Php,
{
    lemma_name_lengths();
}

proof fn round_trip_ruby()
    ensures
        parse_spec(name_spec(Language::Ruby)) == Language::Ruby,
{
    lemma_name_lengths();
    reveal_strlit("Ruby");
    reveal_strlit("Rust");
    assert(name_spec(Language::Ruby)[2] != name_spec(Language::Rust)[2]);
    assert(name_spec(Language::Ruby) != name_spec(Language::Rust));
}

proof fn round_trip_cmake()
    ensures
        parse_spec(name_spec(Language::CMake)) == Language::CMake,
{
    lemma_name_lengths();
}

proof fn round_trip_csharp()
    ensures
        parse_spec(name_spec(Language::CSharp)) == Language::CSharp,
{
    lemma_name_lengths();
    reveal_strlit("CSharp");
    reveal_strlit("Python");
    assert(name_spec(Language::CSharp)[0] != name_spec(Language::Python)[0]);
    assert(name_spec(Language::CSharp) != name_spec(Language::Python));
}

proof fn round_trip_maven()
    ensures
        parse_spec(name_spec(Language::Maven)) == Language::Maven,
{
    lemma_name_lengths();
    reveal_strlit("Maven");
    reveal_strlit("CMake");
    assert(name_spec(Language::Maven)[0] != name_spec(Language::CMake)[0]);
    assert(name_spec(Language::Maven) != name_spec(Language::CMake));
}

proof fn round_trip_kotlin()
    ensures
        parse_spec(name_spec(Language::Kotlin)) == Language::Kotlin,
{
    lemma_name_lengths();
    reveal_strlit("Kotlin");
    reveal_strlit("Python");
    assert(name_spec(Language::Kotlin)[0] != name_spec(Language::Python)[0]);
    assert(name_spec(Language::Kotlin) != name_spec(Language::Python));
    reveal_strlit("Kotlin");
    reveal_strlit("CSharp");
    assert(name_spec(Language::Kotlin)[0] != name_spec(Language::CSharp)[0]);
    assert(name_spec(Language::Kotlin) != name_spec(Language::CSharp));
}

proof fn round_trip_gradle()
    ensures
        parse_spec(name_spec(Language::Gradle)) == Language::Gradle,
{
    lemma_name_lengths();
    reveal_strlit("Gradle");
    reveal_strlit("Python");
    assert(name_spec(Language::Gradle)[0] != name_spec(Language::Python)[0]);
    assert(name_spec(Language::Gradle) != name_spec(Language::Python));
    reveal_strlit("Gradle");
    reveal_strlit("CSharp");
    assert(name_spec(Language::Gradle)[0] != name_spec(Language::CSharp)[0]);
    assert(name_spec(Language::Gradle) != name_spec(Language::CSharp));
    reveal_strlit("Gradle");
    reveal_strlit("Kotlin");
    assert(name_spec(Language::Gradle)[0] != name_spec(Language::Kotlin)[0]);
    assert(name_spec(Language::Gradle) != name_spec(Language::Kotlin));
}

proof fn round_trip_swift()
    ensures
        parse_spec(name_spec(Language::Swift)) == Language::Swift,
{
    lemma_name_lengths();
    reveal_strlit("Swift");
    reveal_strlit("CMake");
    assert(name_spec(Language::Swift)[0] != name_spec(Language::CMake)[0]);
    assert(name_spec(Language::Swift) != name_spec(Language::CMake));
    reveal_strlit("Swift");
    reveal_strlit("Maven");
    assert(name_spec(Language::Swift)[0] != name_spec(Language::Maven)[0]);
    assert(name_spec(Language::Swift) != name_spec(Language::Maven));
}

proof fn round_trip_dart()
    ensures
        parse_spec(name_spec(Language::Dart)) == Language::Dart,
{
    lemma_name_lengths();
    reveal_strlit("Dart");
    reveal_strlit("Rust");
    assert(name_spec(Language::Dart)[0] != name_spec(Language::Rust)[0]);
    assert(name_spec(Language::Dart) != name_spec(Language::Rust));
    reveal_strlit("Dart");
    reveal_strlit("Ruby");
    assert(name_spec(Language::Dart)[0] != name_spec(Language::Ruby)[0]);
    assert(name_spec(Language::Dart) != name_spec(Language::Ruby));
}

proof fn round_trip_elixir()
    ensures
        parse_spec(name_spec(Language::Elixir)) == Language::Elixir,
{
    lemma_name_lengths();
    reveal_strlit("Elixir");
    reveal_strlit("Python");
    assert(name_spec(Language::Elixir)[0] != name_spec(Language::Python)[0]);
    assert(name_spec(Language::Elixir) != name_spec(Language::Python));
    reveal_strlit("Elixir");
    reveal_strlit("CSharp");
    assert(name_spec(Language::Elixir)[0] != name_spec(Language::CSharp)[0]);
    assert(name_spec(Language::Elixir) != name_spec(Language::CSharp));
    reveal_strlit("Elixir");
    reveal_strlit("Kotlin");
    assert(name_spec(Language::Elixir)[0] != name_spec(Language::Kotlin)[0]);
    assert(name_spec(Language::Elixir) != name_spec(Language::Kotlin));
    reveal_strlit("Elixir");
    reveal_strlit("Gradle");
    assert(name_spec(Language::Elixir)[0] != name_spec(Language::Gradle)[0]);
    assert(name_spec(Language::Elixir) != name_spec(Language::Gradle));
}

proof fn round_trip_d()
    ensures
        parse_spec(name_spec(Language::D)) == Language::D,
{
    lemma_name_lengths();
}

proof fn round_trip_haskell()
    ensures
        parse_spec(name_spec(Language::Haskell)) == Language::Haskell,
{
    lemma_name_lengths();
}

proof fn round_trip_r()
    ensures
        parse_spec(name_spec(Language::R)) == Language::R,
{
    lemma_name_lengths();
    reveal_strlit("R");
    reveal_strlit("D");
    assert(name_spec(Language::R)[0] != name_spec(Language::D)[0]);
    assert(name_spec(Language::R) != name_spec(Language::D));
}

/// Law: an ecosystem's canonical name, serialized then parsed, yields the
/// same ecosystem.
pub proof fn lemma_name_round_trip(l: Language)
    ensures
        parse_spec(name_spec(l)) == l,
{
    match l {
        Language::Unknown => round_trip_unknown(),
        Language::Javascript => round_trip_javascript(),
        Language::Typescript => round_trip_typescript(),
        Language::Rust => round_trip_rust(),
        Language::Python => round_trip_python(),
        Language::Go => round_trip_go(),
        Language::Php => round_trip_php(),
        Language::Ruby => round_trip_ruby(),
        Language::CMake => round_trip_cmake(),
        Language::CSharp => round_trip_csharp(),
        Language::Maven => round_trip_maven(),
        Language::Kotlin => round_trip_kotlin(),
        Language::Gradle => round_trip_gradle(),
        Language::Swift => round_trip_swift(),
        Language::Dart => round_trip_dart(),
        Language::Elixir => round_trip_elixir(),
        Language::D => round_trip_d(),
        Language::Haskell => round_trip_haskell(),
        Language::R => round_trip_r(),
    }
}

/// Law: a name that is not the canonical name of any recognized ecosystem
/// parses to `Unknown`.
pub proof fn lemma_unrecognized_parses_to_unknown(s: Seq<char>)
    requires
        forall|l: Language| l != Language::Unknown ==> s != #[trigger] name_spec(l),
    ensures
        parse_spec(s) == Language::Unknown,
{
}

} // verus!
