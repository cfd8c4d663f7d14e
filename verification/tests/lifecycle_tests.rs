use cbuild::error::Error;
use cbuild::lifecycle::{
    after_run_file, build_outcome, expected_artifact, log_line, missing_binary_error,
    parse_arguments, plan_build, plan_run_file, run_outcome, Command,
};
use cbuild::manifest::parse_config_toml;
use cbuild::settings::{Config, Settings};

fn args(v: &[&str]) -> Vec<String> {
    v.iter().map(|s| s.to_string()).collect()
}

#[test]
fn end_to_end_demo_build_plan() {
    let text = "name = \"demo\"\nlanguage = \"c\"\nstandard = \"c99\"\ncompiler = \"gcc\"\nmode = \"debug\"\ntarget = \"x86_64\"\n";
    let config = parse_config_toml(text).unwrap();
    let sources = args(&["src/main.c"]);
    let plan = plan_build(&config, &args(&[]), &args(&[]), &sources, "lib", "bin").unwrap();
    assert_eq!(plan.invocation.program, "gcc");
    assert!(plan.invocation.args.contains(&"-std=c99".to_string()));
    assert!(plan.invocation.args.contains(&"-g".to_string()));
    assert_eq!(plan.invocation.args[0], "-obin/demo");
    assert_eq!(plan.artifact, "bin/demo");
    assert!(plan.copies.is_empty());
}

#[test]
fn build_with_zero_sources_fails_before_any_invocation() {
    let config = Config::new("demo");
    let r = plan_build(&config, &args(&[]), &args(&[]), &args(&[]), "lib", "bin");
    assert_eq!(
        r.unwrap_err(),
        Error::Config("No source files found in src directory".to_string())
    );
}

#[test]
fn build_with_missing_dependency_fails_before_any_invocation() {
    let config =
        parse_config_toml("name = \"demo\"\nlibraries = \"foo.h\"").unwrap();
    let sources = args(&["src/main.c"]);
    let r = plan_build(&config, &args(&[]), &args(&[]), &sources, "lib", "bin");
    assert_eq!(
        r.unwrap_err(),
        Error::Library("Library foo.h not found in global library path".to_string())
    );
}

#[test]
fn build_plan_carries_sync_copies() {
    let config =
        parse_config_toml("name = \"demo\"\nlibraries = \"foo.h, bar.h\"").unwrap();
    let sources = args(&["src/main.c"]);
    let global = args(&["foo.h", "bar.h"]);
    let local = args(&["bar.h"]);
    let plan = plan_build(&config, &global, &local, &sources, "lib", "bin").unwrap();
    assert_eq!(plan.copies, vec!["foo.h"]);
}

#[test]
fn build_without_project_name_fails() {
    let mut config = Config::new("x");
    config.project_name = None;
    let sources = args(&["src/main.c"]);
    let r = plan_build(&config, &args(&[]), &args(&[]), &sources, "lib", "bin");
    assert_eq!(r.unwrap_err(), Error::Config("Project name not found".to_string()));
}

#[test]
fn run_outcome_relays_exit_codes() {
    assert_eq!(run_outcome(true, Some(0)), Ok(()));
    assert_eq!(run_outcome(false, Some(3)), Err(Error::RunFailed(Some(3))));
    assert_eq!(run_outcome(false, None), Err(Error::RunFailed(None)));
}

#[test]
fn build_outcome_maps_compiler_exit() {
    assert_eq!(build_outcome(true), Ok(()));
    assert_eq!(build_outcome(false), Err(Error::BuildFailed));
}

#[test]
fn run_file_removes_artifact_on_success() {
    let outcome = after_run_file(true, Some(0));
    assert!(outcome.remove_artifact);
    assert_eq!(outcome.result, Ok(()));
}

#[test]
fn run_file_removes_artifact_on_failure() {
    let outcome = after_run_file(false, Some(2));
    assert!(outcome.remove_artifact);
    assert_eq!(outcome.result, Err(Error::RunFailed(Some(2))));
}

#[test]
fn run_file_plan_compiles_into_scratch_dir() {
    let settings = Settings::default();
    let plan = plan_run_file(&settings, "hello.c", "./.cbuild");
    assert_eq!(plan.artifact, "./.cbuild/hello");
    assert_eq!(plan.invocation.program, "gcc");
    assert_eq!(plan.invocation.args, vec!["-o./.cbuild/hello", "hello.c"]);
}

#[test]
fn expected_artifact_joins_bin_and_name() {
    let config = Config::new("demo");
    assert_eq!(expected_artifact(&config, "bin").unwrap(), "bin/demo");
    let mut nameless = Config::new("x");
    nameless.project_name = None;
    assert_eq!(
        expected_artifact(&nameless, "bin").unwrap_err(),
        Error::Config("Project name not found".to_string())
    );
}

#[test]
fn missing_binary_error_names_the_path() {
    assert_eq!(
        missing_binary_error("bin/demo"),
        Error::Config("Binary not found at: bin/demo".to_string())
    );
}

#[test]
fn arguments_build_command() {
    let r = parse_arguments(&args(&["cbuild", "build"])).unwrap();
    assert_eq!(r.command, Command::Build);
    assert_eq!(r.new_name, None);
    assert_eq!(r.file, None);
    assert!(!r.verbose);
}

#[test]
fn arguments_run_with_file() {
    let r = parse_arguments(&args(&["cbuild", "run", "hello.c"])).unwrap();
    assert_eq!(r.command, Command::Run);
    assert_eq!(r.file.as_deref(), Some("hello.c"));
}

#[test]
fn arguments_run_flag_is_not_a_file() {
    let r = parse_arguments(&args(&["cbuild", "run", "-v"])).unwrap();
    assert_eq!(r.command, Command::Run);
    assert_eq!(r.file, None);
    assert!(r.verbose);
}

#[test]
fn arguments_verbose_long_flag() {
    let r = parse_arguments(&args(&["cbuild", "build", "--verbose"])).unwrap();
    assert!(r.verbose);
}

#[test]
fn arguments_new_requires_a_name() {
    let r = parse_arguments(&args(&["cbuild", "new"]));
    assert_eq!(
        r.unwrap_err(),
        Error::Arguments("Project name is required for `new` command".to_string())
    );
    let ok = parse_arguments(&args(&["cbuild", "new", "demo"])).unwrap();
    assert_eq!(ok.command, Command::New);
    assert_eq!(ok.new_name.as_deref(), Some("demo"));
}

#[test]
fn arguments_too_few() {
    let r = parse_arguments(&args(&["cbuild"]));
    assert_eq!(r.unwrap_err(), Error::Arguments("Not enough arguments".to_string()));
}

#[test]
fn arguments_unknown_command() {
    let r = parse_arguments(&args(&["cbuild", "frobnicate"]));
    assert_eq!(r.unwrap_err(), Error::Arguments("Unknown command".to_string()));
}

#[test]
fn arguments_other_commands() {
    assert_eq!(parse_arguments(&args(&["cbuild", "clean"])).unwrap().command, Command::Clean);
    assert_eq!(
        parse_arguments(&args(&["cbuild", "version"])).unwrap().command,
        Command::Version
    );
    assert_eq!(parse_arguments(&args(&["cbuild", "help"])).unwrap().command, Command::Help);
}

#[test]
fn log_line_gates_on_verbose() {
    let mut config = Config::new("demo");
    assert_eq!(log_line(&config, "Starting build process"), None);
    config.verbose = true;
    assert_eq!(
        log_line(&config, "Starting build process").as_deref(),
        Some("[cbuild] Starting build process")
    );
}

#[test]
fn error_messages() {
    assert_eq!(Error::IO("disk gone".to_string()).message(), "IO Error: disk gone");
    assert_eq!(Error::NoConfig.message(), "No configuration file found");
    assert_eq!(Error::Config("bad".to_string()).message(), "Configuration error: bad");
    assert_eq!(Error::Arguments("bad".to_string()).message(), "Argument error: bad");
    assert_eq!(
        Error::ProjectCreation("exists".to_string()).message(),
        "Project creation error: exists"
    );
    assert_eq!(Error::Library("x".to_string()).message(), "Library error: x");
    assert_eq!(Error::BuildFailed.message(), "Build failed");
    assert_eq!(Error::RunFailed(Some(1)).message(), "Run failed");
}
