use cbuild::invocation::{build_invocation, compiler_executable, file_invocation, std_flag_of};
use cbuild::settings::{Compiler, Language, Mode, Settings, Standard, Target, Type};

fn settings(compiler: Compiler, standard: Standard, mode: Mode) -> Settings {
    let language = match standard {
        Standard::C89 | Standard::C99 | Standard::C11 | Standard::C17 => Language::C,
        _ => Language::CPP,
    };
    Settings {
        language,
        standard,
        compiler,
        build_type: Type::Binary,
        target: Target::X86_64,
        mode,
    }
}

#[test]
fn gcc_debug_invocation_exact() {
    let s = settings(Compiler::GCC, Standard::C99, Mode::Debug);
    let sources = vec!["src/main.c".to_string()];
    let inv = build_invocation(&s, &sources, "lib", "bin/demo");
    assert_eq!(inv.program, "gcc");
    assert_eq!(
        inv.args,
        vec!["-obin/demo", "-Ilib", "-std=c99", "-g", "-m64", "src/main.c"]
    );
}

#[test]
fn clang_uses_unix_grammar() {
    let s = settings(Compiler::CLANG, Standard::CPP17, Mode::Debug);
    let sources = vec!["a.cpp".to_string(), "b.cpp".to_string()];
    let inv = build_invocation(&s, &sources, "lib", "bin/x");
    assert_eq!(inv.program, "clang");
    assert_eq!(
        inv.args,
        vec!["-obin/x", "-Ilib", "-std=c++17", "-g", "-m64", "a.cpp", "b.cpp"]
    );
}

#[test]
fn release_mode_emits_optimize_and_strip_pair() {
    let s = settings(Compiler::GCC, Standard::C89, Mode::Release);
    let sources = vec!["m.c".to_string()];
    let inv = build_invocation(&s, &sources, "lib", "bin/p");
    assert_eq!(inv.args, vec!["-obin/p", "-Ilib", "-std=c89", "-O3", "-s", "-m64", "m.c"]);
    assert!(!inv.args.contains(&"-g".to_string()));
}

#[test]
fn msvc_debug_invocation_exact() {
    let s = settings(Compiler::MSVC, Standard::C89, Mode::Debug);
    let sources = vec!["m.c".to_string()];
    let inv = build_invocation(&s, &sources, "lib", "bin\\p.exe");
    assert_eq!(inv.program, "cl.exe");
    assert_eq!(
        inv.args,
        vec!["/Fe:bin\\p.exe", "/Ilib", "/Za", "/Zi", "/MACHINE:X64", "m.c"]
    );
}

#[test]
fn msvc_release_pair() {
    let s = settings(Compiler::MSVC, Standard::CPP20, Mode::Release);
    let sources = vec!["m.cpp".to_string()];
    let inv = build_invocation(&s, &sources, "lib", "out");
    assert_eq!(
        inv.args,
        vec!["/Fe:out", "/Ilib", "/std:c++latest", "/O2", "/DNDEBUG", "/MACHINE:X64", "m.cpp"]
    );
}

#[test]
fn msvc_standard_mapping_collapses() {
    assert_eq!(std_flag_of(Compiler::MSVC, Standard::C99), "/std:c11");
    assert_eq!(std_flag_of(Compiler::MSVC, Standard::C11), "/std:c11");
    assert_eq!(std_flag_of(Compiler::MSVC, Standard::C17), "/std:c11");
    assert_eq!(std_flag_of(Compiler::MSVC, Standard::CPP98), "/std:c++14");
    assert_eq!(std_flag_of(Compiler::MSVC, Standard::CPP11), "/std:c++14");
    assert_eq!(std_flag_of(Compiler::MSVC, Standard::CPP14), "/std:c++14");
    assert_eq!(std_flag_of(Compiler::MSVC, Standard::CPP17), "/std:c++17");
}

#[test]
fn unix_standard_mapping_total() {
    assert_eq!(std_flag_of(Compiler::GCC, Standard::C89), "-std=c89");
    assert_eq!(std_flag_of(Compiler::GCC, Standard::C99), "-std=c99");
    assert_eq!(std_flag_of(Compiler::GCC, Standard::C11), "-std=c11");
    assert_eq!(std_flag_of(Compiler::GCC, Standard::C17), "-std=c17");
    assert_eq!(std_flag_of(Compiler::CLANG, Standard::CPP98), "-std=c++98");
    assert_eq!(std_flag_of(Compiler::CLANG, Standard::CPP11), "-std=c++11");
    assert_eq!(std_flag_of(Compiler::CLANG, Standard::CPP14), "-std=c++14");
    assert_eq!(std_flag_of(Compiler::CLANG, Standard::CPP17), "-std=c++17");
    assert_eq!(std_flag_of(Compiler::CLANG, Standard::CPP20), "-std=c++20");
}

#[test]
fn output_directive_comes_first() {
    let s = settings(Compiler::GCC, Standard::C11, Mode::Release);
    let sources = vec!["m.c".to_string()];
    let inv = build_invocation(&s, &sources, "inc", "out/dir/bin");
    assert!(inv.args[0].starts_with("-o"));
    let s2 = settings(Compiler::MSVC, Standard::C11, Mode::Debug);
    let inv2 = build_invocation(&s2, &sources, "inc", "out");
    assert!(inv2.args[0].starts_with("/Fe:"));
}

#[test]
fn invocation_is_deterministic() {
    let s = settings(Compiler::GCC, Standard::C99, Mode::Debug);
    let sources = vec!["src/main.c".to_string()];
    let a = build_invocation(&s, &sources, "lib", "bin/demo");
    let b = build_invocation(&s, &sources, "lib", "bin/demo");
    assert_eq!(a.program, b.program);
    assert_eq!(a.args, b.args);
}

#[test]
fn file_invocation_exact() {
    let s = settings(Compiler::GCC, Standard::C89, Mode::Debug);
    let inv = file_invocation(&s, "hello.c", "./.cbuild/hello");
    assert_eq!(inv.program, "gcc");
    assert_eq!(inv.args, vec!["-o./.cbuild/hello", "hello.c"]);
}

#[test]
fn compiler_executables() {
    assert_eq!(compiler_executable(Compiler::GCC), "gcc");
    assert_eq!(compiler_executable(Compiler::CLANG), "clang");
    assert_eq!(compiler_executable(Compiler::MSVC), "cl.exe");
}
