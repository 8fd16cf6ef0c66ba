use version_builder::errors::BuildError;
use version_builder::prober::Interpreter;
use version_builder::prober::select_interpreter;

#[test]
fn first_candidate_preferred_when_both_runnable() {
    assert_eq!(select_interpreter(true, true), Ok(Interpreter::Python3));
}

#[test]
fn first_candidate_chosen_when_only_it_is_runnable() {
    assert_eq!(select_interpreter(true, false), Ok(Interpreter::Python3));
}

#[test]
fn falls_back_to_second_candidate() {
    assert_eq!(select_interpreter(false, true), Ok(Interpreter::Python));
}

#[test]
fn fails_when_no_candidate_is_runnable() {
    assert_eq!(select_interpreter(false, false), Err(BuildError::InterpreterNotFound));
}

#[test]
fn executable_names() {
    assert_eq!(Interpreter::Python3.executable_name(), "python3");
    assert_eq!(Interpreter::Python.executable_name(), "python");
}

#[test]
fn interpreter_not_found_message() {
    assert_eq!(
        BuildError::InterpreterNotFound.message(),
        "Python was not found on the system path. Please install Python 3."
    );
}

#[test]
fn git_root_not_found_message() {
    assert_eq!(
        BuildError::GitRootNotFound.message(),
        "Could not find .git directory in any parent folders."
    );
}

#[test]
fn tool_failed_message() {
    assert_eq!(
        BuildError::ToolFailed.message(),
        "Python script failed with a non-zero exit code."
    );
}
