//! The engine's error type: one variant per failure kind, each carrying what
//! the orchestrator needs to report it.
use vstd::prelude::*;

verus! {

/// Every failure the engine can surface. Fallible steps return one of these
/// up to the orchestrator; none aborts the process itself.
#[derive(Clone, Debug, PartialEq, Eq)]
pub enum Error {
    /// An underlying file-system or process error, carried as its message.
    IO(String),
    /// No manifest file was found in the searched subtree.
    NoConfig,
    /// A configuration value was rejected; the message names the offense.
    Config(String),
    /// Command-line misuse; the message names the offense.
    Arguments(String),
    /// Project creation would clobber an existing path.
    ProjectCreation(String),
    /// A declared dependency is absent from the global store.
    Library(String),
    /// The compiler exited non-zero.
    BuildFailed,
    /// The executed program exited non-zero; carries its exit code when the
    /// platform reported one.
    RunFailed(Option<i32>),
}

/// The display message of each error kind.
pub open spec fn spec_message(e: Error) -> Seq<char> {
    match e {
        Error::IO(m) => "IO Error: "@ + m@,
        Error::NoConfig => "No configuration file found"@,
        Error::Config(m) => "Configuration error: "@ + m@,
        Error::Arguments(m) => "Argument error: "@ + m@,
        Error::ProjectCreation(m) => "Project creation error: "@ + m@,
        Error::Library(m) => "Library error: "@ + m@,
        Error::BuildFailed => "Build failed"@,
        Error::RunFailed(_) => "Run failed"@,
    }
}

impl Error {
    /// The message the orchestrator prints for this error, once, to the error
    /// stream, before the process exits.
    pub fn message(&self) -> (r: String)
        ensures
            r@ == spec_message(*self),
    {
        match self {
            Error::IO(m) => {
                let mut s = "IO Error: ".to_owned();
                s.append(m.as_str());
                s
            },
            Error::NoConfig => "No configuration file found".to_owned(),
            Error::Config(m) => {
                let mut s = "Configuration error: ".to_owned();
                s.append(m.as_str());
                s
            },
            Error::Arguments(m) => {
                let mut s = "Argument error: ".to_owned();
                s.append(m.as_str());
                s
            },
            Error::ProjectCreation(m) => {
                let mut s = "Project creation error: ".to_owned();
                s.append(m.as_str());
                s
            },
            Error::Library(m) => {
                let mut s = "Library error: ".to_owned();
                s.append(m.as_str());
                s
            },
            Error::BuildFailed => "Build failed".to_owned(),
            Error::RunFailed(_) => "Run failed".to_owned(),
        }
    }
}

} // verus!
