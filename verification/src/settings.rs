//! The declarative build description: enumerated domain values, their
//! defaults, and the project configuration that owns them.
use vstd::prelude::*;

verus! {

/// Programming languages.
#[derive(Clone, Copy, Debug, PartialEq, Eq, Structural)]
pub enum Language {
    C,
    CPP,
}

/// Programming language standards.
#[derive(Clone, Copy, Debug, PartialEq, Eq, Structural)]
pub enum Standard {
    C89,
    C99,
    C11,
    C17,
    CPP98,
    CPP11,
    CPP14,
    CPP17,
    CPP20,
}

/// Compilers.
#[derive(Clone, Copy, Debug, PartialEq, Eq, Structural)]
pub enum Compiler {
    /// GNU Compiler Collection.
    GCC,
    /// C/C++ LLVM compiler; shares its flag grammar with GCC.
    CLANG,
    /// Microsoft Visual C++, with its own flag grammar.
    MSVC,
}

/// Build output type.
#[derive(Clone, Copy, Debug, PartialEq, Eq, Structural)]
pub enum Type {
    /// Standard binary executable (default).
    Binary,
    /// Static library file.
    Library,
    /// Dynamic library file.
    DynLibrary,
}

/// Build target.
#[derive(Clone, Copy, Debug, PartialEq, Eq, Structural)]
pub enum Target {
    X86_64,
}

/// Build mode.
#[derive(Clone, Copy, Debug, PartialEq, Eq, Structural)]
pub enum Mode {
    /// Debug symbols kept (default).
    Debug,
    /// Debug symbols removed and optimization enabled.
    Release,
}

/// The resolved build description.
#[derive(Clone, Copy, Debug, PartialEq, Eq, Structural)]
pub struct Settings {
    pub language: Language,
    pub standard: Standard,
    pub compiler: Compiler,
    pub build_type: Type,
    pub target: Target,
    pub mode: Mode,
}

/// The default build description: a C89 debug binary built by GCC for x86-64.
pub open spec fn default_settings() -> Settings {
    Settings {
        language: Language::C,
        standard: Standard::C89,
        compiler: Compiler::GCC,
        build_type: Type::Binary,
        target: Target::X86_64,
        mode: Mode::Debug,
    }
}

/// Whether `standard` belongs to the standard set of `language`.
pub open spec fn standard_matches_language(language: Language, standard: Standard) -> bool {
    match language {
        Language::C => standard matches Standard::C89 || standard matches Standard::C99
            || standard matches Standard::C11 || standard matches Standard::C17,
        Language::CPP => standard matches Standard::CPP98 || standard matches Standard::CPP11
            || standard matches Standard::CPP14 || standard matches Standard::CPP17
            || standard matches Standard::CPP20,
    }
}

impl Default for Settings {
    fn default() -> (r: Self)
        ensures
            r == default_settings(),
    {
        Settings {
            language: Language::C,
            standard: Standard::C89,
            compiler: Compiler::GCC,
            build_type: Type::Binary,
            target: Target::X86_64,
            mode: Mode::Debug,
        }
    }
}

/// One project's configuration: an optional project name, the resolved
/// settings, the declared dependency names in declaration order (duplicates
/// permitted), and the verbosity gate.
#[derive(Clone, Debug)]
pub struct Config {
    pub project_name: Option<String>,
    pub settings: Settings,
    pub libraries: Vec<String>,
    pub verbose: bool,
}

impl Default for Config {
    fn default() -> (r: Self)
        ensures
            r.project_name is None,
            r.settings == default_settings(),
            r.libraries@.len() == 0,
            r.verbose == false,
    {
        Config {
            project_name: None,
            settings: Settings::default(),
            libraries: Vec::new(),
            verbose: false,
        }
    }
}

impl Config {
    /// The configuration synthesized for a newly created project: the given
    /// name, default settings, no dependencies, quiet.
    pub fn new(project_name: &str) -> (r: Self)
        ensures
            r.project_name matches Some(n) && n@ == project_name@,
            r.settings == default_settings(),
            r.libraries@.len() == 0,
            r.verbose == false,
    {
        Config {
            project_name: Some(project_name.to_owned()),
            settings: Settings::default(),
            libraries: Vec::new(),
            verbose: false,
        }
    }
}

} // verus!
