use vstd::prelude::*;

use crate::errors::BuildError;

verus! {

/// The interpreter candidates, in the fixed priority order in which they are
/// probed: `python3` is the usual name on Unix-like systems, `python` the
/// usual name on Windows.
#[derive(Clone, Copy, Debug, PartialEq, Eq, Structural)]
pub enum Interpreter {
    Python3,
    Python,
}

/// The executable name under which each candidate is invoked.
pub open spec fn executable_name_of(i: Interpreter) -> Seq<char> {
    match i {
        Interpreter::Python3 => "python3"@,
        Interpreter::Python => "python"@,
    }
}

impl Interpreter {
    /// The executable name under which this candidate is invoked.
    pub fn executable_name(&self) -> (r: String)
        ensures
            r@ == executable_name_of(*self),
    {
        match self {
            Interpreter::Python3 => String::from_str("python3"),
            Interpreter::Python => String::from_str("python"),
        }
    }
}

/// Which interpreter a probe with the given outcomes settles on: the first
/// runnable candidate wins, and when neither candidate is runnable the whole
/// build is aborted.
pub open spec fn selected_interpreter(python3_runnable: bool, python_runnable: bool) -> Result<
    Interpreter,
    BuildError,
> {
    if python3_runnable {
        Ok(Interpreter::Python3)
    } else if python_runnable {
        Ok(Interpreter::Python)
    } else {
        Err(BuildError::InterpreterNotFound)
    }
}

/// Pick the interpreter from the two probe outcomes. The caller probes each
/// candidate by attempting to run it with a version-query flag; the flags
/// passed here say whether each candidate could be started.
pub fn select_interpreter(python3_runnable: bool, python_runnable: bool) -> (r: Result<
    Interpreter,
    BuildError,
>)
    ensures
        r == selected_interpreter(python3_runnable, python_runnable),
{
    if python3_runnable {
        Ok(Interpreter::Python3)
    } else if python_runnable {
        Ok(Interpreter::Python)
    } else {
        Err(BuildError::InterpreterNotFound)
    }
}

/// Law: the fallback candidate is selected exactly when the preferred one is
/// unavailable, and when neither is available the probe yields the fatal
/// error rather than any interpreter.
pub proof fn lemma_fallback_selection(python3_runnable: bool, python_runnable: bool)
    ensures
        python3_runnable ==> selected_interpreter(python3_runnable, python_runnable) == Ok::<
            Interpreter,
            BuildError,
        >(Interpreter::Python3),
        !python3_runnable && python_runnable ==> selected_interpreter(
            python3_runnable,
            python_runnable,
        ) == Ok::<Interpreter, BuildError>(Interpreter::Python),
        !python3_runnable && !python_runnable ==> selected_interpreter(
            python3_runnable,
            python_runnable,
        ) == Err::<Interpreter, BuildError>(BuildError::InterpreterNotFound),
{
}

} // verus!
