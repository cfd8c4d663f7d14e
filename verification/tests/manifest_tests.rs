use cbuild::error::Error;
use cbuild::manifest::parse_config_toml;
use cbuild::settings::{Compiler, Language, Mode, Standard, Target, Type};

#[test]
fn parse_full_manifest() {
    let text = "[project]\nname = \"demo\"\n\n[settings]\nlanguage = \"c\"\nstandard = \"c99\"\ncompiler = \"gcc\"\ntype = \"bin\"\ntarget = \"x86_64\"\nmode = \"debug\"\n";
    let config = parse_config_toml(text).unwrap();
    assert_eq!(config.project_name.as_deref(), Some("demo"));
    assert_eq!(config.settings.language, Language::C);
    assert_eq!(config.settings.standard, Standard::C99);
    assert_eq!(config.settings.compiler, Compiler::GCC);
    assert_eq!(config.settings.build_type, Type::Binary);
    assert_eq!(config.settings.target, Target::X86_64);
    assert_eq!(config.settings.mode, Mode::Debug);
    assert!(config.libraries.is_empty());
    assert!(!config.verbose);
}

#[test]
fn parse_empty_text_yields_defaults() {
    let config = parse_config_toml("").unwrap();
    assert_eq!(config.project_name, None);
    assert_eq!(config.settings.language, Language::C);
    assert_eq!(config.settings.standard, Standard::C89);
    assert_eq!(config.settings.compiler, Compiler::GCC);
    assert_eq!(config.settings.build_type, Type::Binary);
    assert_eq!(config.settings.mode, Mode::Debug);
    assert!(config.libraries.is_empty());
}

#[test]
fn parse_unrecognized_standard_fails() {
    let r = parse_config_toml("standard = \"c23\"");
    assert_eq!(r.unwrap_err(), Error::Config("Unsupported standard".to_string()));
}

#[test]
fn parse_unrecognized_language_fails() {
    let r = parse_config_toml("language = \"fortran\"");
    assert_eq!(r.unwrap_err(), Error::Config("Unsupported language".to_string()));
}

#[test]
fn parse_unrecognized_compiler_fails() {
    let r = parse_config_toml("compiler = \"icc\"");
    assert_eq!(r.unwrap_err(), Error::Config("Unsupported compiler".to_string()));
}

#[test]
fn parse_unrecognized_type_fails() {
    let r = parse_config_toml("type = \"cdylib\"");
    assert_eq!(r.unwrap_err(), Error::Config("Unsupported type".to_string()));
}

#[test]
fn parse_unrecognized_target_fails() {
    let r = parse_config_toml("target = \"aarch64\"");
    assert_eq!(r.unwrap_err(), Error::Config("Unsupported target".to_string()));
}

#[test]
fn parse_unrecognized_mode_fails() {
    let r = parse_config_toml("mode = \"profile\"");
    assert_eq!(r.unwrap_err(), Error::Config("Unsupported mode".to_string()));
}

#[test]
fn parse_unknown_keys_are_ignored() {
    let config = parse_config_toml("future_knob = \"on\"\nname = \"p\"\n").unwrap();
    assert_eq!(config.project_name.as_deref(), Some("p"));
    assert_eq!(config.settings.standard, Standard::C89);
}

#[test]
fn parse_malformed_lines_are_ignored() {
    let text = "[settings]\njust some text\na = b = c\nname = \"p\"";
    let config = parse_config_toml(text).unwrap();
    assert_eq!(config.project_name.as_deref(), Some("p"));
}

#[test]
fn parse_key_order_is_irrelevant() {
    let a = parse_config_toml("language = \"c\"\nstandard = \"c11\"\nmode = \"release\"\n")
        .unwrap();
    let b = parse_config_toml("mode = \"release\"\nstandard = \"c11\"\nlanguage = \"c\"\n")
        .unwrap();
    assert_eq!(a.settings, b.settings);
}

#[test]
fn parse_last_occurrence_wins() {
    let config = parse_config_toml("standard = \"c89\"\nstandard = \"c17\"\n").unwrap();
    assert_eq!(config.settings.standard, Standard::C17);
}

#[test]
fn parse_libraries_list() {
    let config = parse_config_toml("libraries = \"foo.h, bar.h,baz.h\"").unwrap();
    assert_eq!(config.libraries, vec!["foo.h", "bar.h", "baz.h"]);
}

#[test]
fn parse_libraries_keep_duplicates_and_order() {
    let config = parse_config_toml("libraries = \"b.h, a.h, b.h\"").unwrap();
    assert_eq!(config.libraries, vec!["b.h", "a.h", "b.h"]);
}

#[test]
fn parse_unquoted_values_accepted() {
    let config = parse_config_toml("standard = c11\nname = plain").unwrap();
    assert_eq!(config.settings.standard, Standard::C11);
    assert_eq!(config.project_name.as_deref(), Some("plain"));
}

#[test]
fn parse_cpp_manifest() {
    let config = parse_config_toml(
        "language = \"CPP\"\nstandard = \"CPP20\"\ncompiler = \"clang\"\ntype = \"dylib\"\nmode = \"release\"",
    )
        .unwrap();
    assert_eq!(config.settings.language, Language::CPP);
    assert_eq!(config.settings.standard, Standard::CPP20);
    assert_eq!(config.settings.compiler, Compiler::CLANG);
    assert_eq!(config.settings.build_type, Type::DynLibrary);
    assert_eq!(config.settings.mode, Mode::Release);
}

#[test]
fn parse_standard_outside_language_fails() {
    let r = parse_config_toml("language = \"CPP\"\nstandard = \"c99\"");
    assert_eq!(
        r.unwrap_err(),
        Error::Config("Unsupported standard for language".to_string())
    );
}

#[test]
fn parse_windows_line_endings() {
    let config = parse_config_toml("name = \"demo\"\r\nstandard = \"c99\"\r\n").unwrap();
    assert_eq!(config.project_name.as_deref(), Some("demo"));
    assert_eq!(config.settings.standard, Standard::C99);
}

#[test]
fn parse_error_precedence_is_first_bad_line() {
    let r = parse_config_toml("compiler = \"tcc\"\nstandard = \"c23\"");
    assert_eq!(r.unwrap_err(), Error::Config("Unsupported compiler".to_string()));
}
