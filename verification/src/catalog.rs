//! The hook catalog: the fixed, ordered list of verification steps of each
//! ecosystem. Order within a list is semantically significant (a build step
//! must run before the tests that need its artifacts), so every builder
//! appends its steps in catalog order.

use crate::language::Language;
use vstd::prelude::*;

verus! {

/// One verification step bound to an ecosystem: a shell command together
/// with progress messages and the name of the log file that captures its
/// output.
#[derive(Clone, Copy)]
pub struct Hook {
    pub language: Language,
    pub description: &'static str,
    pub success: &'static str,
    pub failure: &'static str,
    pub file: &'static str,
    pub command: &'static str,
}

/// The mathematical model of a hook: the same six fields, with each string
/// as its character sequence.
pub ghost struct HookSpec {
    pub language: Language,
    pub description: Seq<char>,
    pub success: Seq<char>,
    pub failure: Seq<char>,
    pub file: Seq<char>,
    pub command: Seq<char>,
}

impl View for Hook {
    type V = HookSpec;

    open spec fn view(&self) -> HookSpec {
        HookSpec {
            language: self.language,
            description: self.description@,
            success: self.success@,
            failure: self.failure@,
            file: self.file@,
            command: self.command@,
        }
    }
}

/// The models of a sequence of hooks.
pub open spec fn views(hooks: Seq<Hook>) -> Seq<HookSpec> {
    hooks.map_values(|h: Hook| h@)
}

/// The verification steps for a D project.
pub open spec fn d_catalog() -> Seq<HookSpec> {
    seq![
        HookSpec {
            language: Language::D,
            description: "Building your project"@,
            success: "Build successful"@,
            failure: "Build failed"@,
            file: "build.log"@,
            command: "dub build"@,
        },
        HookSpec {
            language: Language::D,
            description: "Testing your project"@,
            success: "Tests passed"@,
            failure: "Tests failed"@,
            file: "test.log"@,
            command: "dub test"@,
        },
    ]
}

/// The verification steps for a Haskell project.
pub open spec fn haskell_catalog() -> Seq<HookSpec> {
    seq![
        HookSpec {
            language: Language::Haskell,
            description: "Checking for outdated packages in your project"@,
            success: "No outdated packages found"@,
            failure: "Outdated packages found"@,
            file: "outdated.log"@,
            command: "cabal outdated"@,
        },
        HookSpec {
            language: Language::Haskell,
            description: "Checking for security vulnerabilities"@,
            success: "No vulnerabilities found"@,
            failure: "Vulnerabilities found"@,
            file: "audit.log"@,
            command: "cabal audit"@,
        },
        HookSpec {
            language: Language::Haskell,
            description: "Running tests for your Haskell project"@,
            success: "Tests passed"@,
            failure: "Tests failed"@,
            file: "test.log"@,
            command: "cabal test"@,
        },
    ]
}

/// The verification steps for a Maven project.
pub open spec fn maven_catalog() -> Seq<HookSpec> {
    seq![
        HookSpec {
            language: Language::Maven,
            description: "Checking for outdated dependencies"@,
            success: "No outdated dependencies found"@,
            failure: "Outdated dependencies found"@,
            file: "outdated.log"@,
            command: "mvn dependency:tree"@,
        },
        HookSpec {
            language: Language::Maven,
            description: "Checking for security vulnerabilities"@,
            success: "No vulnerabilities found"@,
            failure: "Vulnerabilities found"@,
            file: "audit.log"@,
            command: "mvn dependency-check:check"@,
        },
        HookSpec {
            language: Language::Maven,
            description: "Running tests for your Maven project"@,
            success: "Tests passed"@,
            failure: "Tests failed"@,
            file: "test.log"@,
            command: "mvn test"@,
        },
        HookSpec {
            language: Language::Maven,
            description: "Checking for outdated packages in your project"@,
            success: "No outdated packages found"@,
            failure: "Outdated packages found"@,
            file: "outdated.log"@,
            command: "mvn versions:display-dependency-updates"@,
        },
    ]
}

/// The verification steps for a Javascript project.
pub open spec fn javascript_catalog() -> Seq<HookSpec> {
    seq![
        HookSpec {
            language: Language::Javascript,
            description: "Checking for outdated packages in your project"@,
            success: "No outdated packages found"@,
            failure: "Outdated packages found"@,
            file: "outdated.log"@,
            command: "npm outdated"@,
        },
        HookSpec {
            language: Language::Javascript,
            description: "Testing your project"@,
            success: "Tests passed"@,
            failure: "Tests failed"@,
            file: "test.log"@,
            command: "npm run test"@,
        },
        HookSpec {
            language: Language::Javascript,
            description: "Auditing your project"@,
            success: "No vulnerabilities found"@,
            failure: "Vulnerabilities found"@,
            file: "audit.log"@,
            command: "npm audit"@,
        },
        HookSpec {
            language: Language::Javascript,
            description: "Checking for code formatting in your project"@,
            success: "Linting passed"@,
            failure: "Lint error found"@,
            file: "lint.log"@,
            command: "npm run lint"@,
        },
    ]
}

/// The verification steps for a Rust project.
pub open spec fn rust_catalog() -> Seq<HookSpec> {
    seq![
        HookSpec {
            language: Language::Rust,
            description: "Checking the configuration"@,
            success: "Project is valid"@,
            failure: "Project not valid"@,
            file: "project.log"@,
            command: "cargo verify-project"@,
        },
        HookSpec {
            language: Language::Rust,
            description: "Checking build capability"@,
            success: "Can build the project"@,
            failure: "Cargo check detect failure"@,
            file: "check.log"@,
            command: "cargo check"@,
        },
        HookSpec {
            language: Language::Rust,
            description: "Checking for security vulnerabilities"@,
            success: "No vulnerabilities found"@,
            failure: "Vulnerabilities found"@,
            file: "audit.log"@,
            command: "cargo audit"@,
        },
        HookSpec {
            language: Language::Rust,
            description: "Checks for formatting issues in your Rust code"@,
            success: "Code format standard respected"@,
            failure: "Code format standard not respected"@,
            file: "fmt.log"@,
            command: "cargo fmt --check"@,
        },
        HookSpec {
            language: Language::Rust,
            description: "Checks for linting issues and suggests code improvements"@,
            success: "No warning founded"@,
            failure: "Warnings founded"@,
            file: "clippy.log"@,
            command: "cargo clippy -- -D clippy::all -W warnings -D clippy::pedantic -D clippy::nursery -A clippy::multiple_crate_versions"@,
        },
        HookSpec {
            language: Language::Rust,
            description: "Testing your project"@,
            success: "Tests passed"@,
            failure: "Tests failed"@,
            file: "test.log"@,
            command: "cargo test --no-fail-fast"@,
        },
        HookSpec {
            language: Language::Rust,
            description: "Generating documentation for your project"@,
            success: "Documentation generated"@,
            failure: "Failed to generate documentation"@,
            file: "doc.log"@,
            command: "cargo doc --no-deps --document-private-items"@,
        },
        HookSpec {
            language: Language::Rust,
            description: "Checking for outdated packages in your project"@,
            success: "No outdated packages found"@,
            failure: "Outdated packages found"@,
            file: "outdated.log"@,
            command: "cargo outdated"@,
        },
    ]
}

/// The verification steps for a Python project.
pub open spec fn python_catalog() -> Seq<HookSpec> {
    seq![
        HookSpec {
            language: Language::Python,
            description: "Checking for outdated packages in your project"@,
            success: "No outdated packages found"@,
            failure: "Outdated packages found"@,
            file: "outdated.log"@,
            command: "pip list --outdated"@,
        },
        HookSpec {
            language: Language::Python,
            description: "Checking for security vulnerabilities"@,
            success: "No vulnerabilities found"@,
            failure: "Vulnerabilities found"@,
            file: "audit.log"@,
            command: "pip audit"@,
        },
    ]
}

/// The verification steps for a Go project.
pub open spec fn go_catalog() -> Seq<HookSpec> {
    seq![
        HookSpec {
            language: Language::Go,
            description: "Testing your project"@,
            success: "Tests passed"@,
            failure: "Tests failed"@,
            file: "test.log"@,
            command: "go test -v"@,
        },
        HookSpec {
            language: Language::Go,
            description: "Checking for security vulnerabilities"@,
            success: "No vulnerabilities found"@,
            failure: "Vulnerabilities found"@,
            file: "audit.log"@,
            command: "go list -u -m -json all"@,
        },
    ]
}

/// The verification steps for a PHP project.
pub open spec fn php_catalog() -> Seq<HookSpec> {
    seq![
        HookSpec {
            language: Language::Php,
            description: "Checking platform requirements"@,
            success: "All requirements are met"@,
            failure: "Missing requirements found"@,
            file: "reqs.log"@,
            command: "composer check-platform-reqs"@,
        },
        HookSpec {
            language: Language::Php,
            description: "Checking for security vulnerabilities"@,
            success: "No vulnerabilities found"@,
            failure: "Vulnerabilities found"@,
            file: "audit.log"@,
            command: "composer audit"@,
        },
        HookSpec {
            language: Language::Php,
            description: "Checking outdated packages"@,
            success: "No outdated packages found"@,
            failure: "Outdated packages found"@,
            file: "outdated.log"@,
            command: "composer outdated"@,
        },
        HookSpec {
            language: Language::Php,
            description: "Running tests for your PHP project"@,
            success: "Tests passed"@,
            failure: "Tests failed"@,
            file: "test.log"@,
            command: "composer run test"@,
        },
    ]
}

/// The verification steps for a Ruby project.
pub open spec fn ruby_catalog() -> Seq<HookSpec> {
    seq![
        HookSpec {
            language: Language::Ruby,
            description: "Checking for outdated gems"@,
            success: "No outdated gems found"@,
            failure: "Outdated gems found"@,
            file: "outdated.log"@,
            command: "bundle outdated"@,
        },
        HookSpec {
            language: Language::Ruby,
            description: "Checking for security vulnerabilities"@,
            success: "No vulnerabilities found"@,
            failure: "Vulnerabilities found"@,
            file: "audit.log"@,
            command: "bundle audit"@,
        },
        HookSpec {
            language: Language::Ruby,
            description: "Running tests for your Ruby project"@,
            success: "Tests passed"@,
            failure: "Tests failed"@,
            file: "test.log"@,
            command: "bundle exec rspec"@,
        },
    ]
}

/// The verification steps for a CMake project.
pub open spec fn cmake_catalog() -> Seq<HookSpec> {
    seq![
        HookSpec {
            language: Language::CMake,
            description: "Generate Makefile"@,
            success: "Makefile generation success."@,
            failure: "Makefile generation failed"@,
            file: "cmake.log"@,
            command: "cmake ."@,
        },
        HookSpec {
            language: Language::CMake,
            description: "Building"@,
            success: "Build success"@,
            failure: "Build failed"@,
            file: "make.log"@,
            command: "make"@,
        },
        HookSpec {
            language: Language::CMake,
            description: "Testing"@,
            success: "Tests passed"@,
            failure: "Tests failed"@,
            file: "test.log"@,
            command: "make test"@,
        },
    ]
}

/// The verification steps for a C# project.
pub open spec fn csharp_catalog() -> Seq<HookSpec> {
    seq![
        HookSpec {
            language: Language::CSharp,
            description: "Checking for code formatting"@,
            success: "Code formatting is correct"@,
            failure: "Code formatting issues found"@,
            file: "format.log"@,
            command: "dotnet format --verify-no-changes"@,
        },
        HookSpec {
            language: Language::CSharp,
            description: "Running unit tests"@,
            success: "All tests passed"@,
            failure: "Some tests failed"@,
            file: "test.log"@,
            command: "dotnet test"@,
        },
        HookSpec {
            language: Language::CSharp,
            description: "Building the project"@,
            success: "Build successful"@,
            failure: "Build failed"@,
            file: "build.log"@,
            command: "dotnet build"@,
        },
        HookSpec {
            language: Language::CSharp,
            description: "Checking for dependency updates"@,
            success: "Dependencies are up to date"@,
            failure: "Dependency updates available"@,
            file: "deps.log"@,
            command: "dotnet restore"@,
        },
        HookSpec {
            language: Language::CSharp,
            description: "Checking for security vulnerabilities"@,
            success: "No vulnerabilities found"@,
            failure: "Vulnerabilities found"@,
            file: "audit.log"@,
            command: "dotnet audit"@,
        },
    ]
}

/// The verification steps for a Swift project.
pub open spec fn swift_catalog() -> Seq<HookSpec> {
    seq![
        HookSpec {
            language: Language::Swift,
            description: "Checking for code formatting"@,
            success: "Code formatting is correct"@,
            failure: "Code formatting issues found"@,
            file: "format.log"@,
            command: "swiftformat --lint ."@,
        },
        HookSpec {
            language: Language::Swift,
            description: "Running unit tests"@,
            success: "All tests passed"@,
            failure: "Some tests failed"@,
            file: "test.log"@,
            command: "swift test"@,
        },
        HookSpec {
            language: Language::Swift,
            description: "Checking for security vulnerabilities"@,
            success: "No vulnerabilities found"@,
            failure: "Vulnerabilities found"@,
            file: "audit.log"@,
            command: "swift package audit"@,
        },
        HookSpec {
            language: Language::Swift,
            description: "Building the project"@,
            success: "Build successful"@,
            failure: "Build failed"@,
            file: "build.log"@,
            command: "swift build"@,
        },
        HookSpec {
            language: Language::Swift,
            description: "Running integration tests"@,
            success: "All integration tests passed"@,
            failure: "Some integration tests failed"@,
            file: "integration.log"@,
            command: "swift test --parallel"@,
        },
    ]
}

/// The verification steps for a Dart project.
pub open spec fn dart_catalog() -> Seq<HookSpec> {
    seq![
        HookSpec {
            language: Language::Dart,
            description: "Checking for code formatting"@,
            success: "Code formatting is correct"@,
            failure: "Code formatting issues found"@,
            file: "format.log"@,
            command: "dart format --set-exit-if-changed"@,
        },
        HookSpec {
            language: Language::Dart,
            description: "Running unit tests"@,
            success: "All tests passed"@,
            failure: "Some tests failed"@,
            file: "test.log"@,
            command: "dart test"@,
        },
        HookSpec {
            language: Language::Dart,
            description: "Checking for security vulnerabilities"@,
            success: "No vulnerabilities found"@,
            failure: "Vulnerabilities found"@,
            file: "audit.log"@,
            command: "dart pub audit"@,
        },
        HookSpec {
            language: Language::Dart,
            description: "Building the project"@,
            success: "Build successful"@,
            failure: "Build failed"@,
            file: "build.log"@,
            command: "dart compile exe bin/main.dart"@,
        },
    ]
}

/// The verification steps for a Kotlin project.
pub open spec fn kotlin_catalog() -> Seq<HookSpec> {
    seq![
        HookSpec {
            language: Language::Kotlin,
            description: "Running unit tests"@,
            success: "All tests passed"@,
            failure: "Some tests failed"@,
            file: "test.log"@,
            command: "gradle test"@,
        },
    ]
}

/// The verification steps for an Elixir project.
pub open spec fn elixir_catalog() -> Seq<HookSpec> {
    seq![
        HookSpec {
            language: Language::Elixir,
            description: "Checking for code formatting"@,
            success: "Code formatting is correct"@,
            failure: "Code formatting issues found"@,
            file: "format.log"@,
            command: "mix format --check-formatted"@,
        },
        HookSpec {
            language: Language::Elixir,
            description: "Running unit tests"@,
            success: "All tests passed"@,
            failure: "Some tests failed"@,
            file: "test.log"@,
            command: "mix test"@,
        },
        HookSpec {
            language: Language::Elixir,
            description: "Generating documentation"@,
            success: "Documentation generated successfully"@,
            failure: "Documentation generation failed"@,
            file: "docs.log"@,
            command: "mix docs"@,
        },
        HookSpec {
            language: Language::Elixir,
            description: "Checking for security vulnerabilities"@,
            success: "No vulnerabilities found"@,
            failure: "Vulnerabilities found"@,
            file: "audit.log"@,
            command: "mix audit"@,
        },
        HookSpec {
            language: Language::Elixir,
            description: "Building the project"@,
            success: "Build successful"@,
            failure: "Build failed"@,
            file: "build.log"@,
            command: "mix compile"@,
        },
    ]
}

/// The verification steps for a Typescript project: the Javascript
/// steps followed by a type check and a format check.
pub open spec fn typescript_catalog() -> Seq<HookSpec> {
    javascript_catalog() + seq![
        HookSpec {
            language: Language::Typescript,
            description: "Checking for type in your project"@,
            success: "Types are valid"@,
            failure: "Type errors found"@,
            file: "types.log"@,
            command: "npx tsc --noEmit"@,
        },
        HookSpec {
            language: Language::Typescript,
            description: "Checking for code formatting in your project"@,
            success: "Code is formatted correctly"@,
            failure: "Code formating issues found"@,
            file: "fmt.log"@,
            command: "npx prettier --check ."@,
        },
    ]
}

/// The verification steps for a Gradle project. The wrapper script that
/// runs them depends on the host platform, chosen at catalog-build time.
pub open spec fn gradle_catalog(windows: bool) -> Seq<HookSpec> {
    if windows {
        seq![
            HookSpec {
                language: Language::Gradle,
                description: "Building your application"@,
                success: "Build successful"@,
                failure: "Build failed"@,
                file: "build.log"@,
                command: "gradlew.bat build"@,
            },
            HookSpec {
                language: Language::Gradle,
                description: "Running unit test"@,
                success: "Test passed"@,
                failure: "Test failed"@,
                file: "test.log"@,
                command: "gradlew.bat test"@,
            },
            HookSpec {
                language: Language::Gradle,
                description: "Running tests for your Gradle project"@,
                success: "Tests passed"@,
                failure: "Tests failed"@,
                file: "test.log"@,
                command: "gradlew.bat test"@,
            },
        ]
    } else {
        seq![
            HookSpec {
                language: Language::Gradle,
                description: "Building your application"@,
                success: "Build successful"@,
                failure: "Build failed"@,
                file: "build.log"@,
                command: "gradlew build"@,
            },
            HookSpec {
                language: Language::Gradle,
                description: "Running unit test"@,
                success: "Test passed"@,
                failure: "Test failed"@,
                file: "test.log"@,
                command: "gradlew test"@,
            },
            HookSpec {
                language: Language::Gradle,
                description: "Running tests for your Gradle project"@,
                success: "Tests passed"@,
                failure: "Tests failed"@,
                file: "test.log"@,
                command: "gradlew test"@,
            },
        ]
    }
}

/// The full catalog: the ordered hook list of each ecosystem. `Unknown`
/// and `R` have no hooks.
pub open spec fn catalog(l: Language, windows: bool) -> Seq<HookSpec> {
    match l {
        Language::Unknown | Language::R => Seq::empty(),
        Language::Kotlin => kotlin_catalog(),
        Language::Typescript => typescript_catalog(),
        Language::D => d_catalog(),
        Language::Haskell => haskell_catalog(),
        Language::Maven => maven_catalog(),
        Language::Gradle => gradle_catalog(windows),
        Language::Javascript => javascript_catalog(),
        Language::Rust => rust_catalog(),
        Language::Python => python_catalog(),
        Language::Go => go_catalog(),
        Language::Php => php_catalog(),
        Language::Ruby => ruby_catalog(),
        Language::CMake => cmake_catalog(),
        Language::CSharp => csharp_catalog(),
        Language::Swift => swift_catalog(),
        Language::Dart => dart_catalog(),
        Language::Elixir => elixir_catalog(),
    }
}

impl Hook {
    /// The verification steps for a D project.
    pub fn d(hooks: &mut Vec<Self>)
        ensures
            views(final(hooks)@) == views(old(hooks)@) + d_catalog(),
    {
        hooks.push(Self {
            language: Language::D,
            description: "Building your project",
            success: "Build successful",
            failure: "Build failed",
            file: "build.log",
            command: "dub build",
        });
        hooks.push(Self {
            language: Language::D,
            description: "Testing your project",
            success: "Tests passed",
            failure: "Tests failed",
            file: "test.log",
            command: "dub test",
        });
        proof {
            assert(views(hooks@) =~= views(old(hooks)@) + d_catalog());
        }
    }

    /// The verification steps for a Haskell project.
    pub fn haskell(hooks: &mut Vec<Self>)
        ensures
            views(final(hooks)@) == views(old(hooks)@) + haskell_catalog(),
    {
        hooks.push(Self {
            language: Language::Haskell,
            description: "Checking for outdated packages in your project",
            success: "No outdated packages found",
            failure: "Outdated packages found",
            file: "outdated.log",
            command: "cabal outdated",
        });
        hooks.push(Self {
            language: Language::Haskell,
            description: "Checking for security vulnerabilities",
            success: "No vulnerabilities found",
            failure: "Vulnerabilities found",
            file: "audit.log",
            command: "cabal audit",
        });
        hooks.push(Self {
            language: Language::Haskell,
            description: "Running tests for your Haskell project",
            success: "Tests passed",
            failure: "Tests failed",
            file: "test.log",
            command: "cabal test",
        });
        proof {
            assert(views(hooks@) =~= views(old(hooks)@) + haskell_catalog());
        }
    }

    /// The verification steps for a Maven project.
    pub fn maven(hooks: &mut Vec<Self>)
        ensures
            views(final(hooks)@) == views(old(hooks)@) + maven_catalog(),
    {
        hooks.push(Self {
            language: Language::Maven,
            description: "Checking for outdated dependencies",
            success: "No outdated dependencies found",
            failure: "Outdated dependencies found",
            file: "outdated.log",
            command: "mvn dependency:tree",
        });
        hooks.push(Self {
            language: Language::Maven,
            description: "Checking for security vulnerabilities",
            success: "No vulnerabilities found",
            failure: "Vulnerabilities found",
            file: "audit.log",
            command: "mvn dependency-check:check",
        });
        hooks.push(Self {
            language: Language::Maven,
            description: "Running tests for your Maven project",
            success: "Tests passed",
            failure: "Tests failed",
            file: "test.log",
            command: "mvn test",
        });
        hooks.push(Self {
            language: Language::Maven,
            description: "Checking for outdated packages in your project",
            success: "No outdated packages found",
            failure: "Outdated packages found",
            file: "outdated.log",
            command: "mvn versions:display-dependency-updates",
        });
        proof {
            assert(views(hooks@) =~= views(old(hooks)@) + maven_catalog());
        }
    }

    /// The verification steps for a Javascript project.
    pub fn javascript(hooks: &mut Vec<Self>)
        ensures
            views(final(hooks)@) == views(old(hooks)@) + javascript_catalog(),
    {
        hooks.push(Self {
            language: Language::Javascript,
            description: "Checking for outdated packages in your project",
            success: "No outdated packages found",
            failure: "Outdated packages found",
            file: "outdated.log",
            command: "npm outdated",
        });
        hooks.push(Self {
            language: Language::Javascript,
            description: "Testing your project",
            success: "Tests passed",
            failure: "Tests failed",
            file: "test.log",
            command: "npm run test",
        });
        hooks.push(Self {
            language: Language::Javascript,
            description: "Auditing your project",
            success: "No vulnerabilities found",
            failure: "Vulnerabilities found",
            file: "audit.log",
            command: "npm audit",
        });
        hooks.push(Self {
            language: Language::Javascript,
            description: "Checking for code formatting in your project",
            success: "Linting passed",
            failure: "Lint error found",
            file: "lint.log",
            command: "npm run lint",
        });
        proof {
            assert(views(hooks@) =~= views(old(hooks)@) + javascript_catalog());
        }
    }

    /// The verification steps for a Rust project.
    pub fn rust(hooks: &mut Vec<Self>)
        ensures
            views(final(hooks)@) == views(old(hooks)@) + rust_catalog(),
    {
        hooks.push(Self {
            language: Language::Rust,
            description: "Checking the configuration",
            success: "Project is valid",
            failure: "Project not valid",
            file: "project.log",
            command: "cargo verify-project",
        });
        hooks.push(Self {
            language: Language::Rust,
            description: "Checking build capability",
            success: "Can build the project",
            failure: "Cargo check detect failure",
            file: "check.log",
            command: "cargo check",
        });
        hooks.push(Self {
            language: Language::Rust,
            description: "Checking for security vulnerabilities",
            success: "No vulnerabilities found",
            failure: "Vulnerabilities found",
            file: "audit.log",
            command: "cargo audit",
        });
        hooks.push(Self {
            language: Language::Rust,
            description: "Checks for formatting issues in your Rust code",
            success: "Code format standard respected",
            failure: "Code format standard not respected",
            file: "fmt.log",
            command: "cargo fmt --check",
        });
        hooks.push(Self {
            language: Language::Rust,
            description: "Checks for linting issues and suggests code improvements",
            success: "No warning founded",
            failure: "Warnings founded",
            file: "clippy.log",
            command: "cargo clippy -- -D clippy::all -W warnings -D clippy::pedantic -D clippy::nursery -A clippy::multiple_crate_versions",
        });
        hooks.push(Self {
            language: Language::Rust,
            description: "Testing your project",
            success: "Tests passed",
            failure: "Tests failed",
            file: "test.log",
            command: "cargo test --no-fail-fast",
        });
        hooks.push(Self {
            language: Language::Rust,
            description: "Generating documentation for your project",
            success: "Documentation generated",
            failure: "Failed to generate documentation",
            file: "doc.log",
            command: "cargo doc --no-deps --document-private-items",
        });
        hooks.push(Self {
            language: Language::Rust,
            description: "Checking for outdated packages in your project",
            success: "No outdated packages found",
            failure: "Outdated packages found",
            file: "outdated.log",
            command: "cargo outdated",
        });
        proof {
            assert(views(hooks@) =~= views(old(hooks)@) + rust_catalog());
        }
    }

    /// The verification steps for a Python project.
    pub fn python(hooks: &mut Vec<Self>)
        ensures
            views(final(hooks)@) == views(old(hooks)@) + python_catalog(),
    {
        hooks.push(Self {
            language: Language::Python,
            description: "Checking for outdated packages in your project",
            success: "No outdated packages found",
            failure: "Outdated packages found",
            file: "outdated.log",
            command: "pip list --outdated",
        });
        hooks.push(Self {
            language: Language::Python,
            description: "Checking for security vulnerabilities",
            success: "No vulnerabilities found",
            failure: "Vulnerabilities found",
            file: "audit.log",
            command: "pip audit",
        });
        proof {
            assert(views(hooks@) =~= views(old(hooks)@) + python_catalog());
        }
    }

    /// The verification steps for a Go project.
    pub fn go(hooks: &mut Vec<Self>)
        ensures
            views(final(hooks)@) == views(old(hooks)@) + go_catalog(),
    {
        hooks.push(Self {
            language: Language::Go,
            description: "Testing your project",
            success: "Tests passed",
            failure: "Tests failed",
            file: "test.log",
            command: "go test -v",
        });
        hooks.push(Self {
            language: Language::Go,
            description: "Checking for security vulnerabilities",
            success: "No vulnerabilities found",
            failure: "Vulnerabilities found",
            file: "audit.log",
            command: "go list -u -m -json all",
        });
        proof {
            assert(views(hooks@) =~= views(old(hooks)@) + go_catalog());
        }
    }

    /// The verification steps for a PHP project.
    pub fn php(hooks: &mut Vec<Self>)
        ensures
            views(final(hooks)@) == views(old(hooks)@) + php_catalog(),
    {
        hooks.push(Self {
            language: Language::Php,
            description: "Checking platform requirements",
            success: "All requirements are met",
            failure: "Missing requirements found",
            file: "reqs.log",
            command: "composer check-platform-reqs",
        });
        hooks.push(Self {
            language: Language::Php,
            description: "Checking for security vulnerabilities",
            success: "No vulnerabilities found",
            failure: "Vulnerabilities found",
            file: "audit.log",
            command: "composer audit",
        });
        hooks.push(Self {
            language: Language::Php,
            description: "Checking outdated packages",
            success: "No outdated packages found",
            failure: "Outdated packages found",
            file: "outdated.log",
            command: "composer outdated",
        });
        hooks.push(Self {
            language: Language::Php,
            description: "Running tests for your PHP project",
            success: "Tests passed",
            failure: "Tests failed",
            file: "test.log",
            command: "composer run test",
        });
        proof {
            assert(views(hooks@) =~= views(old(hooks)@) + php_catalog());
        }
    }

    /// The verification steps for a Ruby project.
    pub fn ruby(hooks: &mut Vec<Self>)
        ensures
            views(final(hooks)@) == views(old(hooks)@) + ruby_catalog(),
    {
        hooks.push(Self {
            language: Language::Ruby,
            description: "Checking for outdated gems",
            success: "No outdated gems found",
            failure: "Outdated gems found",
            file: "outdated.log",
            command: "bundle outdated",
        });
        hooks.push(Self {
            language: Language::Ruby,
            description: "Checking for security vulnerabilities",
            success: "No vulnerabilities found",
            failure: "Vulnerabilities found",
            file: "audit.log",
            command: "bundle audit",
        });
        hooks.push(Self {
            language: Language::Ruby,
            description: "Running tests for your Ruby project",
            success: "Tests passed",
            failure: "Tests failed",
            file: "test.log",
            command: "bundle exec rspec",
        });
        proof {
            assert(views(hooks@) =~= views(old(hooks)@) + ruby_catalog());
        }
    }

    /// The verification steps for a CMake project.
    pub fn cmake(hooks: &mut Vec<Self>)
        ensures
            views(final(hooks)@) == views(old(hooks)@) + cmake_catalog(),
    {
        hooks.push(Self {
            language: Language::CMake,
            description: "Generate Makefile",
            success: "Makefile generation success.",
            failure: "Makefile generation failed",
            file: "cmake.log",
            command: "cmake .",
        });
        hooks.push(Self {
            language: Language::CMake,
            description: "Building",
            success: "Build success",
            failure: "Build failed",
            file: "make.log",
            command: "make",
        });
        hooks.push(Self {
            language: Language::CMake,
            description: "Testing",
            success: "Tests passed",
            failure: "Tests failed",
            file: "test.log",
            command: "make test",
        });
        proof {
            assert(views(hooks@) =~= views(old(hooks)@) + cmake_catalog());
        }
    }

    /// The verification steps for a C# project.
    pub fn csharp(hooks: &mut Vec<Self>)
        ensures
            views(final(hooks)@) == views(old(hooks)@) + csharp_catalog(),
    {
        hooks.push(Self {
            language: Language::CSharp,
            description: "Checking for code formatting",
            success: "Code formatting is correct",
            failure: "Code formatting issues found",
            file: "format.log",
            command: "dotnet format --verify-no-changes",
        });
        hooks.push(Self {
            language: Language::CSharp,
            description: "Running unit tests",
            success: "All tests passed",
            failure: "Some tests failed",
            file: "test.log",
            command: "dotnet test",
        });
        hooks.push(Self {
            language: Language::CSharp,
            description: "Building the project",
            success: "Build successful",
            failure: "Build failed",
            file: "build.log",
            command: "dotnet build",
        });
        hooks.push(Self {
            language: Language::CSharp,
            description: "Checking for dependency updates",
            success: "Dependencies are up to date",
            failure: "Dependency updates available",
            file: "deps.log",
            command: "dotnet restore",
        });
        hooks.push(Self {
            language: Language::CSharp,
            description: "Checking for security vulnerabilities",
            success: "No vulnerabilities found",
            failure: "Vulnerabilities found",
            file: "audit.log",
            command: "dotnet audit",
        });
        proof {
            assert(views(hooks@) =~= views(old(hooks)@) + csharp_catalog());
        }
    }

    /// The verification steps for a Swift project.
    pub fn swift(hooks: &mut Vec<Self>)
        ensures
            views(final(hooks)@) == views(old(hooks)@) + swift_catalog(),
    {
        hooks.push(Self {
            language: Language::Swift,
            description: "Checking for code formatting",
            success: "Code formatting is correct",
            failure: "Code formatting issues found",
            file: "format.log",
            command: "swiftformat --lint .",
        });
        hooks.push(Self {
            language: Language::Swift,
            description: "Running unit tests",
            success: "All tests passed",
            failure: "Some tests failed",
            file: "test.log",
            command: "swift test",
        });
        hooks.push(Self {
            language: Language::Swift,
            description: "Checking for security vulnerabilities",
            success: "No vulnerabilities found",
            failure: "Vulnerabilities found",
            file: "audit.log",
            command: "swift package audit",
        });
        hooks.push(Self {
            language: Language::Swift,
            description: "Building the project",
            success: "Build successful",
            failure: "Build failed",
            file: "build.log",
            command: "swift build",
        });
        hooks.push(Self {
            language: Language::Swift,
            description: "Running integration tests",
            success: "All integration tests passed",
            failure: "Some integration tests failed",
            file: "integration.log",
            command: "swift test --parallel",
        });
        proof {
            assert(views(hooks@) =~= views(old(hooks)@) + swift_catalog());
        }
    }

    /// The verification steps for a Dart project.
    pub fn dart(hooks: &mut Vec<Self>)
        ensures
            views(final(hooks)@) == views(old(hooks)@) + dart_catalog(),
    {
        hooks.push(Self {
            language: Language::Dart,
            description: "Checking for code formatting",
            success: "Code formatting is correct",
            failure: "Code formatting issues found",
            file: "format.log",
            command: "dart format --set-exit-if-changed",
        });
        hooks.push(Self {
            language: Language::Dart,
            description: "Running unit tests",
            success: "All tests passed",
            failure: "Some tests failed",
            file: "test.log",
            command: "dart test",
        });
        hooks.push(Self {
            language: Language::Dart,
            description: "Checking for security vulnerabilities",
            success: "No vulnerabilities found",
            failure: "Vulnerabilities found",
            file: "audit.log",
            command: "dart pub audit",
        });
        hooks.push(Self {
            language: Language::Dart,
            description: "Building the project",
            success: "Build successful",
            failure: "Build failed",
            file: "build.log",
            command: "dart compile exe bin/main.dart",
        });
        proof {
            assert(views(hooks@) =~= views(old(hooks)@) + dart_catalog());
        }
    }

    /// The verification steps for a Kotlin project.
    pub fn kotlin(hooks: &mut Vec<Self>)
        ensures
            views(final(hooks)@) == views(old(hooks)@) + kotlin_catalog(),
    {
        hooks.push(Self {
            language: Language::Kotlin,
            description: "Running unit tests",
            success: "All tests passed",
            failure: "Some tests failed",
            file: "test.log",
            command: "gradle test",
        });
        proof {
            assert(views(hooks@) =~= views(old(hooks)@) + kotlin_catalog());
        }
    }

    /// The verification steps for an Elixir project.
    pub fn elixir(hooks: &mut Vec<Self>)
        ensures
            views(final(hooks)@) == views(old(hooks)@) + elixir_catalog(),
    {
        hooks.push(Self {
            language: Language::Elixir,
            description: "Checking for code formatting",
            success: "Code formatting is correct",
            failure: "Code formatting issues found",
            file: "format.log",
            command: "mix format --check-formatted",
        });
        hooks.push(Self {
            language: Language::Elixir,
            description: "Running unit tests",
            success: "All tests passed",
            failure: "Some tests failed",
            file: "test.log",
            command: "mix test",
        });
        hooks.push(Self {
            language: Language::Elixir,
            description: "Generating documentation",
            success: "Documentation generated successfully",
            failure: "Documentation generation failed",
            file: "docs.log",
            command: "mix docs",
        });
        hooks.push(Self {
            language: Language::Elixir,
            description: "Checking for security vulnerabilities",
            success: "No vulnerabilities found",
            failure: "Vulnerabilities found",
            file: "audit.log",
            command: "mix audit",
        });
        hooks.push(Self {
            language: Language::Elixir,
            description: "Building the project",
            success: "Build successful",
            failure: "Build failed",
            file: "build.log",
            command: "mix compile",
        });
        proof {
            assert(views(hooks@) =~= views(old(hooks)@) + elixir_catalog());
        }
    }

    /// The verification steps for a Typescript project: the Javascript
    /// steps followed by a type check and a format check.
    pub fn typescript(hooks: &mut Vec<Self>)
        ensures
            views(final(hooks)@) == views(old(hooks)@) + typescript_catalog(),
    {
        Self::javascript(hooks);
        let ghost mid = hooks@;
        hooks.push(Self {
            language: Language::Typescript,
            description: "Checking for type in your project",
            success: "Types are valid",
            failure: "Type errors found",
            file: "types.log",
            command: "npx tsc --noEmit",
        });
        hooks.push(Self {
            language: Language::Typescript,
            description: "Checking for code formatting in your project",
            success: "Code is formatted correctly",
            failure: "Code formating issues found",
            file: "fmt.log",
            command: "npx prettier --check .",
        });
        proof {
            let t1 = HookSpec {
                language: Language::Typescript,
                description: "Checking for type in your project"@,
                success: "Types are valid"@,
                failure: "Type errors found"@,
                file: "types.log"@,
                command: "npx tsc --noEmit"@,
            };
            let t2 = HookSpec {
                language: Language::Typescript,
                description: "Checking for code formatting in your project"@,
                success: "Code is formatted correctly"@,
                failure: "Code formating issues found"@,
                file: "fmt.log"@,
                command: "npx prettier --check ."@,
            };
            assert(views(hooks@) =~= views(mid).push(t1).push(t2));
            assert(views(mid).push(t1).push(t2) =~= views(old(hooks)@) + typescript_catalog());
        }
    }

    /// The verification steps for a Gradle project; `windows` selects the
    /// platform's wrapper script at catalog-build time.
    pub fn gradle(hooks: &mut Vec<Self>, windows: bool)
        ensures
            views(final(hooks)@) == views(old(hooks)@) + gradle_catalog(windows),
    {
        if windows {
            hooks.push(Self {
                language: Language::Gradle,
                description: "Building your application",
                success: "Build successful",
                failure: "Build failed",
                file: "build.log",
                command: "gradlew.bat build",
            });
            hooks.push(Self {
                language: Language::Gradle,
                description: "Running unit test",
                success: "Test passed",
                failure: "Test failed",
                file: "test.log",
                command: "gradlew.bat test",
            });
            hooks.push(Self {
                language: Language::Gradle,
                description: "Running tests for your Gradle project",
                success: "Tests passed",
                failure: "Tests failed",
                file: "test.log",
                command: "gradlew.bat test",
            });
        } else {
            hooks.push(Self {
                language: Language::Gradle,
                description: "Building your application",
                success: "Build successful",
                failure: "Build failed",
                file: "build.log",
                command: "gradlew build",
            });
            hooks.push(Self {
                language: Language::Gradle,
                description: "Running unit test",
                success: "Test passed",
                failure: "Test failed",
                file: "test.log",
                command: "gradlew test",
            });
            hooks.push(Self {
                language: Language::Gradle,
                description: "Running tests for your Gradle project",
                success: "Tests passed",
                failure: "Tests failed",
                file: "test.log",
                command: "gradlew test",
            });
        }
        proof {
            assert(views(hooks@) =~= views(old(hooks)@) + gradle_catalog(windows));
        }
    }

    /// The ordered hook list of an ecosystem; `windows` selects the
    /// platform-appropriate shell commands at catalog-build time.
    pub fn get(language: Language, windows: bool) -> (r: Vec<Self>)
        ensures
            views(r@) == catalog(language, windows),
    {
        let mut hooks: Vec<Self> = Vec::new();
        match language {
            Language::Unknown | Language::R => {}
            Language::Kotlin => Self::kotlin(&mut hooks),
            Language::Typescript => Self::typescript(&mut hooks),
            Language::D => Self::d(&mut hooks),
            Language::Haskell => Self::haskell(&mut hooks),
            Language::Maven => Self::maven(&mut hooks),
            Language::Gradle => Self::gradle(&mut hooks, windows),
            Language::Javascript => Self::javascript(&mut hooks),
            Language::Rust => Self::rust(&mut hooks),
            Language::Python => Self::python(&mut hooks),
            Language::Go => Self::go(&mut hooks),
            Language::Php => Self::php(&mut hooks),
            Language::Ruby => Self::ruby(&mut hooks),
            Language::CMake => Self::cmake(&mut hooks),
            Language::CSharp => Self::csharp(&mut hooks),
            Language::Swift => Self::swift(&mut hooks),
            Language::Dart => Self::dart(&mut hooks),
            Language::Elixir => Self::elixir(&mut hooks),
        }
        proof {
            assert(views(hooks@) =~= catalog(language, windows));
        }
        hooks
    }

}

} // verus!
