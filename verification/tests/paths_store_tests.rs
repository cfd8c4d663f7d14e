use cbuild::paths::{basename_of, file_stem_of, is_recognized_source, path_join};
use cbuild::store::{global_store_dir, global_store_template, temp_build_dir};
use cbuild::text::{split_on, str_eq, trim, unquote};

#[test]
fn recognized_source_extensions() {
    assert!(is_recognized_source("main.c"));
    assert!(is_recognized_source("main.cpp"));
    assert!(is_recognized_source("src/deep/path.c"));
    assert!(is_recognized_source("a.b.cpp"));
    assert!(!is_recognized_source("main.rs"));
    assert!(!is_recognized_source("README"));
    assert!(!is_recognized_source(".bashrc"));
    assert!(!is_recognized_source("archive.cc"));
    assert!(!is_recognized_source("trailing."));
}

#[test]
fn file_stems() {
    assert_eq!(file_stem_of("hello.c"), "hello");
    assert_eq!(file_stem_of("src/hello.c"), "hello");
    assert_eq!(file_stem_of("hello"), "hello");
    assert_eq!(file_stem_of(".bashrc"), ".bashrc");
    assert_eq!(file_stem_of("a.tar.gz"), "a.tar");
}

#[test]
fn basenames() {
    assert_eq!(basename_of("a/b/c.c"), "c.c");
    assert_eq!(basename_of("c.c"), "c.c");
}

#[test]
fn joining_paths() {
    assert_eq!(path_join("bin", "demo"), "bin/demo");
    assert_eq!(path_join("./.cbuild", "hello"), "./.cbuild/hello");
}

#[test]
fn trimming_and_unquoting() {
    assert_eq!(trim("  x\t"), "x");
    assert_eq!(trim("\r\t  \r"), "");
    assert_eq!(trim("a b"), "a b");
    assert_eq!(unquote("\"demo\""), "demo");
    assert_eq!(unquote("\"\"demo\"\""), "demo");
    assert_eq!(unquote("demo"), "demo");
}

#[test]
fn splitting() {
    assert_eq!(split_on("a,b,,c", ','), vec!["a", "b", "", "c"]);
    assert_eq!(split_on("no delimiter", ','), vec!["no delimiter"]);
    assert_eq!(split_on("", ','), vec![""]);
}

#[test]
fn string_equality() {
    assert!(str_eq("abc", "abc"));
    assert!(!str_eq("abc", "abd"));
    assert!(!str_eq("abc", "ab"));
}

#[test]
fn store_locations() {
    assert_eq!(global_store_template(), "~/.cbuild/libs/");
    assert_eq!(temp_build_dir(), "./.cbuild");
}

#[test]
fn global_store_dir_expands_the_tilde() {
    let expanded = global_store_dir();
    let expected = shellexpand::tilde("~/.cbuild/libs/").into_owned();
    assert_eq!(expanded, expected);
    assert!(expanded.ends_with(".cbuild/libs/"));
}
