use vstd::prelude::*;

use crate::command::Toggles;
use crate::command::ToolCommand;
use crate::command::VersionInput;
use crate::command::build_tool_command;
use crate::command::is_command_for;
use crate::errors::BuildError;
use crate::locator::first_marked;
use crate::locator::locate_root;
use crate::prober::Interpreter;
use crate::prober::select_interpreter;
use crate::rerun::declaration_lines;
use crate::rerun::rebuild_declarations;
use crate::command::views_of;

verus! {

/// No ancestor in the chain holds the version-control marker.
pub open spec fn no_marker(markers: Seq<bool>) -> bool {
    forall|j: int| 0 <= j < markers.len() ==> !markers[j]
}

/// The interpreter that a successful probe settles on.
pub open spec fn chosen_interpreter(python3_runnable: bool, python_runnable: bool) -> Interpreter {
    if python3_runnable {
        Interpreter::Python3
    } else {
        Interpreter::Python
    }
}

/// Plan a run of the entry point that discovers the version-control root.
///
/// `ancestors[i]` is the directory `i` steps above the starting directory and
/// `markers[i]` says whether it holds the version-control marker; the caller
/// gathers both by walking the real filesystem upward to its root. The plan
/// fails exactly when no ancestor is marked (the nearer failure) or, the root
/// found, when neither interpreter candidate is runnable; otherwise it is the
/// full command for the external tool, reading from the nearest marked
/// ancestor.
pub fn plan_with_root_discovery(
    ancestors: &Vec<String>,
    markers: &Vec<bool>,
    python3_runnable: bool,
    python_runnable: bool,
    module_dir: &String,
    toggles: Toggles,
    out_file: &String,
) -> (r: Result<ToolCommand, BuildError>)
    requires
        ancestors@.len() == markers@.len(),
    ensures
        no_marker(markers@) ==> r == Err::<ToolCommand, BuildError>(BuildError::GitRootNotFound),
        !no_marker(markers@) && !python3_runnable && !python_runnable ==> r == Err::<
            ToolCommand,
            BuildError,
        >(BuildError::InterpreterNotFound),
        !no_marker(markers@) && (python3_runnable || python_runnable) ==> (match r {
            Ok(c) => first_marked(markers@) matches Some(i) && is_command_for(
                c,
                chosen_interpreter(python3_runnable, python_runnable),
                module_dir@,
                (VersionInput::GitRoot { repo_root: ancestors@[i] }),
                toggles,
                out_file@,
            ),
            Err(_) => false,
        }),
{
    proof {
        crate::locator::lemma_first_marked_is_nearest(markers@);
    }
    let root_index = match locate_root(markers) {
        Some(i) => i,
        None => {
            return Err(BuildError::GitRootNotFound);
        },
    };
    let interpreter = match select_interpreter(python3_runnable, python_runnable) {
        Ok(i) => i,
        Err(e) => {
            return Err(e);
        },
    };
    let input = VersionInput::GitRoot { repo_root: ancestors[root_index].clone() };
    Ok(build_tool_command(interpreter, module_dir, &input, toggles, out_file))
}

/// Plan a run of the entry point that does not discover a root: the version
/// source is the calling project's own directory and its declared package
/// version. The plan fails exactly when neither interpreter candidate is
/// runnable.
pub fn plan_from_project(
    manifest_dir: &String,
    package_version: &String,
    python3_runnable: bool,
    python_runnable: bool,
    module_dir: &String,
    toggles: Toggles,
    out_file: &String,
) -> (r: Result<ToolCommand, BuildError>)
    ensures
        !python3_runnable && !python_runnable ==> r == Err::<ToolCommand, BuildError>(
            BuildError::InterpreterNotFound,
        ),
        python3_runnable || python_runnable ==> (match r {
            Ok(c) => is_command_for(
                c,
                chosen_interpreter(python3_runnable, python_runnable),
                module_dir@,
                (VersionInput::Project {
                    manifest_dir: *manifest_dir,
                    package_version: *package_version,
                }),
                toggles,
                out_file@,
            ),
            Err(_) => false,
        }),
{
    let interpreter = match select_interpreter(python3_runnable, python_runnable) {
        Ok(i) => i,
        Err(e) => {
            return Err(e);
        },
    };
    let input = VersionInput::Project {
        manifest_dir: manifest_dir.clone(),
        package_version: package_version.clone(),
    };
    Ok(build_tool_command(interpreter, module_dir, &input, toggles, out_file))
}

/// Conclude a run of the external tool. On a zero exit status the result is
/// the rebuild declarations for the given watched paths, and nothing else; on
/// a nonzero status it is the fatal error, and no declarations are produced —
/// the generated file is left exactly as the tool last wrote it, since this
/// component never touches it.
pub fn conclude_run(tool_exit_ok: bool, watched_paths: &Vec<String>) -> (r: Result<
    Vec<String>,
    BuildError,
>)
    ensures
        !tool_exit_ok ==> r == Err::<Vec<String>, BuildError>(BuildError::ToolFailed),
        tool_exit_ok ==> (match r {
            Ok(lines) => views_of(lines@) == declaration_lines(views_of(watched_paths@)),
            Err(_) => false,
        }),
{
    if !tool_exit_ok {
        return Err(BuildError::ToolFailed);
    }
    Ok(rebuild_declarations(watched_paths))
}

} // verus!
