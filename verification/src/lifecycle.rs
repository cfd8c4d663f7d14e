//! The lifecycle orchestrator's decision logic: command-line classification,
//! the whole-project build plan, the ad hoc single-file plan, and the mapping
//! from child-process exits to reported results. Everything here is a pure
//! function of its inputs; performing the planned file and process work is
//! the caller's.
use vstd::prelude::*;
use crate::error::Error;
use crate::invocation::{
    Invocation,
    build_invocation,
    file_invocation,
    build_args,
    file_args,
    compiler_name,
};
use crate::paths::{joined, path_join, file_stem, file_stem_of};
use crate::settings::{Config, Settings};
use crate::sync::{plan_sync, spec_sync, library_error_msg, missing_library_error};

verus! {

/// The commands the tool accepts.
#[derive(Clone, Copy, Debug, PartialEq, Eq, Structural)]
pub enum Command {
    Build,
    Run,
    New,
    Clean,
    Version,
    Help,
}

/// One classified command line: the command, the name a `new` command
/// carries, the file argument a `run` command may carry, and the verbosity
/// flag.
#[derive(Debug)]
pub struct CliRequest {
    pub command: Command,
    pub new_name: Option<String>,
    pub file: Option<String>,
    pub verbose: bool,
}

/// The command a word names, if any.
pub open spec fn command_of(w: Seq<char>) -> Option<Command> {
    if w == "build"@ {
        Some(Command::Build)
    } else if w == "run"@ {
        Some(Command::Run)
    } else if w == "new"@ {
        Some(Command::New)
    } else if w == "clean"@ {
        Some(Command::Clean)
    } else if w == "version"@ {
        Some(Command::Version)
    } else if w == "help"@ {
        Some(Command::Help)
    } else {
        None
    }
}

/// Whether the argument list asks for verbose output.
pub open spec fn spec_verbose(args: Seq<Seq<char>>) -> bool {
    args.contains("--verbose"@) || args.contains("-v"@)
}

/// Whether a `run` command line carries a file argument: a third word that
/// does not start with a dash.
pub open spec fn run_file_arg(args: Seq<Seq<char>>) -> Option<Seq<char>> {
    if args.len() > 2 && !(args[2].len() > 0 && args[2][0] == '-') {
        Some(args[2])
    } else {
        None
    }
}

/// Classifies a raw argument list: the first word after the program name is
/// the command; `new` demands a name; `run` may take a file; `-v` or
/// `--verbose` anywhere turns verbose output on.
pub fn parse_arguments(args: &Vec<String>) -> (r: Result<CliRequest, Error>)
    ensures
        ({
            let a = args.deep_view();
            &&& (a.len() < 2 ==> (r matches Err(e) && e matches Error::Arguments(m) && m@
                == "Not enough arguments"@))
            &&& (a.len() >= 2 ==> (match command_of(a[1]) {
                None => r matches Err(e) && e matches Error::Arguments(m) && m@
                    == "Unknown command"@,
                Some(Command::New) => if a.len() < 3 {
                    r matches Err(e) && e matches Error::Arguments(m) && m@
                        == "Project name is required for `new` command"@
                } else {
                    r matches Ok(q) && q.command is New && (q.new_name matches Some(n) && n@
                        == a[2]) && q.file is None && q.verbose == spec_verbose(a)
                },
                Some(Command::Run) => r matches Ok(q) && q.command is Run && q.new_name is None
                    && q.verbose == spec_verbose(a) && (match run_file_arg(a) {
                    Some(f) => q.file matches Some(qf) && qf@ == f,
                    None => q.file is None,
                }),
                Some(cmd) => r matches Ok(q) && q.command == cmd && q.new_name is None
                    && q.file is None && q.verbose == spec_verbose(a),
            }))
        }),
{
    if args.len() < 2 {
        return Err(Error::Arguments("Not enough arguments".to_owned()));
    }
    let verbose = {
        let long = "--verbose".to_owned();
        let short = "-v".to_owned();
        crate::sync::contains_str(args, &long) || crate::sync::contains_str(args, &short)
    };
    let word = args[1].as_str();
    if crate::text::str_eq(word, "build") {
        Ok(CliRequest { command: Command::Build, new_name: None, file: None, verbose })
    } else if crate::text::str_eq(word, "run") {
        let file = if args.len() > 2 {
            let third = args[2].as_str();
            let n = third.unicode_len();
            if n == 0 || third.get_char(0) != '-' {
                Some(args[2].clone())
            } else {
                None
            }
        } else {
            None
        };
        Ok(CliRequest { command: Command::Run, new_name: None, file, verbose })
    } else if crate::text::str_eq(word, "new") {
        if args.len() < 3 {
            return Err(Error::Arguments("Project name is required for `new` command".to_owned()));
        }
        Ok(
            CliRequest {
                command: Command::New,
                new_name: Some(args[2].clone()),
                file: None,
                verbose,
            },
        )
    } else if crate::text::str_eq(word, "clean") {
        Ok(CliRequest { command: Command::Clean, new_name: None, file: None, verbose })
    } else if crate::text::str_eq(word, "version") {
        Ok(CliRequest { command: Command::Version, new_name: None, file: None, verbose })
    } else if crate::text::str_eq(word, "help") {
        Ok(CliRequest { command: Command::Help, new_name: None, file: None, verbose })
    } else {
        Err(Error::Arguments("Unknown command".to_owned()))
    }
}

/// Everything a whole-project build does, decided before any process runs:
/// the dependency copies to make, the compiler invocation to execute, and the
/// artifact path to report.
#[derive(Debug)]
pub struct BuildPlan {
    pub copies: Vec<String>,
    pub invocation: Invocation,
    pub artifact: String,
}

/// Decides a whole-project build from the configuration and the observed
/// file-system facts: the global and local library listings and the
/// discovered source files. Dependency sync is decided first, so a missing
/// dependency fails the build before any compiler invocation exists; then a
/// missing project name and an empty source set are rejected; otherwise the
/// plan carries the sync copies, the backend invocation, and the artifact
/// path under `bin_dir`.
pub fn plan_build(
    config: &Config,
    global: &Vec<String>,
    local: &Vec<String>,
    sources: &Vec<String>,
    lib_dir: &str,
    bin_dir: &str,
) -> (r: Result<BuildPlan, Error>)
    ensures
        ({
            let m = spec_sync(config.libraries.deep_view(), global.deep_view(), local.deep_view());
            &&& (m.1 matches Some(lib) ==> (r matches Err(e) && e matches Error::Library(msg)
                && msg@ == library_error_msg(lib)))
            &&& (m.1 is None && config.project_name is None ==> (r matches Err(e)
                && e matches Error::Config(msg) && msg@ == "Project name not found"@))
            &&& (m.1 is None && config.project_name is Some && sources@.len() == 0 ==> (
            r matches Err(e) && e matches Error::Config(msg) && msg@
                == "No source files found in src directory"@))
            &&& (m.1 is None && config.project_name is Some && sources@.len() > 0 ==> (match config.project_name {
                Some(n) => r matches Ok(p) && p.copies.deep_view() == m.0 && p.artifact@ == joined(
                    bin_dir@,
                    n@,
                ) && p.invocation.program@ == compiler_name(config.settings.compiler)
                    && p.invocation.args.deep_view() == build_args(
                    config.settings,
                    sources.deep_view(),
                    lib_dir@,
                    joined(bin_dir@, n@),
                ),
                None => true,
            }))
        }),
{
    let sync = plan_sync(&config.libraries, global, local);
    match sync.missing {
        Some(lib) => Err(missing_library_error(lib.as_str())),
        None => {
            match &config.project_name {
                None => Err(Error::Config("Project name not found".to_owned())),
                Some(name) => {
                    if sources.len() == 0 {
                        Err(Error::Config("No source files found in src directory".to_owned()))
                    } else {
                        let output = path_join(bin_dir, name.as_str());
                        let invocation = build_invocation(
                            &config.settings,
                            sources,
                            lib_dir,
                            output.as_str(),
                        );
                        Ok(BuildPlan { copies: sync.copies, invocation, artifact: output })
                    }
                },
            }
        },
    }
}

/// The result reported for the compile step: a non-zero compiler exit is a
/// build failure.
pub fn build_outcome(success: bool) -> (r: Result<(), Error>)
    ensures
        success <==> r is Ok,
        !success ==> (r matches Err(e) && e is BuildFailed),
{
    if success {
        Ok(())
    } else {
        Err(Error::BuildFailed)
    }
}

/// The result reported for an executed program: success relays nothing, a
/// non-zero exit carries the child's exit code when the platform knew it.
pub fn run_outcome(success: bool, code: Option<i32>) -> (r: Result<(), Error>)
    ensures
        success <==> r is Ok,
        success ==> r == Result::<(), Error>::Ok(()),
        !success ==> r == Result::<(), Error>::Err(Error::RunFailed(code)),
{
    if success {
        Ok(())
    } else {
        Err(Error::RunFailed(code))
    }
}

/// The artifact a successful build of `config` leaves under `bin_dir`; a
/// configuration without a project name has none.
pub fn expected_artifact(config: &Config, bin_dir: &str) -> (r: Result<String, Error>)
    ensures
        config.project_name matches Some(n) ==> (r matches Ok(p) && p@ == joined(bin_dir@, n@)),
        config.project_name is None ==> (r matches Err(e) && e matches Error::Config(m) && m@
            == "Project name not found"@),
{
    match &config.project_name {
        Some(name) => Ok(path_join(bin_dir, name.as_str())),
        None => Err(Error::Config("Project name not found".to_owned())),
    }
}

/// The message of the defensive error raised when the binary is absent after
/// a reported-successful build.
pub open spec fn missing_binary_msg(path: Seq<char>) -> Seq<char> {
    "Binary not found at: "@ + path
}

/// The defensive error for a binary missing after a reported-successful
/// build; it should not occur in correct operation.
pub fn missing_binary_error(path: &str) -> (r: Error)
    ensures
        r matches Error::Config(m) && m@ == missing_binary_msg(path@),
{
    let mut m = "Binary not found at: ".to_owned();
    m.append(path);
    Error::Config(m)
}

/// An ad hoc single-file build: the compiler invocation and the scratch
/// artifact it produces under the scratch build directory.
#[derive(Debug)]
pub struct RunFilePlan {
    pub invocation: Invocation,
    pub artifact: String,
}

/// Decides an ad hoc single-file build: the one source file compiles to a
/// scratch artifact named after its stem under `temp_dir`, bypassing project
/// structure entirely.
pub fn plan_run_file(settings: &Settings, file_name: &str, temp_dir: &str) -> (r: RunFilePlan)
    ensures
        r.invocation.program@ == compiler_name(settings.compiler),
        r.invocation.args.deep_view() == file_args(
            settings.compiler,
            file_name@,
            joined(temp_dir@, file_stem(file_name@)),
        ),
        r.artifact@ == joined(temp_dir@, file_stem(file_name@)),
{
    let stem = file_stem_of(file_name);
    let artifact = path_join(temp_dir, stem.as_str());
    let invocation = file_invocation(settings, file_name, artifact.as_str());
    RunFilePlan { invocation, artifact }
}

/// What the ad hoc mode does once the compiled scratch artifact has run:
/// whether to remove the artifact, and the result to report.
pub open spec fn spec_after_run_file(success: bool, code: Option<i32>) -> (bool, Result<
    (),
    Error,
>) {
    (true, if success {
        Ok(())
    } else {
        Err(Error::RunFailed(code))
    })
}

/// What the ad hoc mode decides after its artifact ran: remove the artifact —
/// on every path — and relay the run result.
#[derive(Debug)]
pub struct RunFileOutcome {
    pub remove_artifact: bool,
    pub result: Result<(), Error>,
}

/// The follow-up of an ad hoc run: the scratch artifact is removed whatever
/// the run did, and a non-zero exit is reported with the child's code.
pub fn after_run_file(success: bool, code: Option<i32>) -> (r: RunFileOutcome)
    ensures
        r.remove_artifact == spec_after_run_file(success, code).0,
        r.result == spec_after_run_file(success, code).1,
{
    RunFileOutcome { remove_artifact: true, result: run_outcome(success, code) }
}

/// LAW: the ad hoc mode removes the compiled scratch artifact on every exit
/// path — when the executed program exits zero and when it exits non-zero
/// alike.
pub proof fn lemma_run_file_always_removes(success: bool, code: Option<i32>)
    ensures
        spec_after_run_file(success, code).0,
{
}

/// The verbosity gate: the line a stage emits, prefixed with the tool's tag,
/// only when the configuration asks for verbose output.
pub fn log_line(config: &Config, message: &str) -> (r: Option<String>)
    ensures
        config.verbose ==> (r matches Some(m) && m@ == "[cbuild] "@ + message@),
        !config.verbose ==> r is None,
{
    if config.verbose {
        let mut m = "[cbuild] ".to_owned();
        m.append(message);
        Some(m)
    } else {
        None
    }
}

} // verus!
