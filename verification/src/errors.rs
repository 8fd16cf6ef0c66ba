use vstd::prelude::*;

verus! {

/// The unrecoverable failures of a version-generation run. Every one of them
/// aborts the enclosing build: none is retried or downgraded to a warning.
#[derive(Clone, Copy, Debug, PartialEq, Eq, Structural)]
pub enum BuildError {
    /// No candidate interpreter could be started on the host.
    InterpreterNotFound,
    /// No ancestor of the starting directory holds the version-control marker.
    GitRootNotFound,
    /// The external version-computation tool exited with a nonzero status.
    ToolFailed,
}

/// The fatal text reported for each failure.
pub open spec fn message_of(e: BuildError) -> Seq<char> {
    match e {
        BuildError::InterpreterNotFound => "Python was not found on the system path. Please install Python 3."@,
        BuildError::GitRootNotFound => "Could not find .git directory in any parent folders."@,
        BuildError::ToolFailed => "Python script failed with a non-zero exit code."@,
    }
}

impl BuildError {
    /// The fatal text shown to the person running the build.
    pub fn message(&self) -> (r: String)
        ensures
            r@ == message_of(*self),
    {
        match self {
            BuildError::InterpreterNotFound => String::from_str(
                "Python was not found on the system path. Please install Python 3.",
            ),
            BuildError::GitRootNotFound => String::from_str(
                "Could not find .git directory in any parent folders.",
            ),
            BuildError::ToolFailed => String::from_str(
                "Python script failed with a non-zero exit code.",
            ),
        }
    }
}

} // verus!
