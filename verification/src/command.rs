use vstd::prelude::*;

use crate::prober::Interpreter;
use crate::prober::executable_name_of;

verus! {

/// The two independent build-time toggles. Each one, when set, appends one
/// optional flag to the external tool's command line.
#[derive(Clone, Copy, Debug, PartialEq, Eq, Structural)]
pub struct Toggles {
    /// Request verbose output from the external tool (`--print`).
    pub print_output: bool,
    /// Request an embedded timestamp (`--time`).
    pub include_time: bool,
}

/// Where the external tool reads the version from: either a discovered
/// version-control root, or the calling project's own directory together with
/// its declared package version.
#[derive(Debug)]
pub enum VersionInput {
    GitRoot { repo_root: String },
    Project { manifest_dir: String, package_version: String },
}

/// The views of a sequence of argument strings.
pub open spec fn views_of(args: Seq<String>) -> Seq<Seq<char>> {
    args.map_values(|s: String| s@)
}

/// The fixed leading arguments: run the helper module, in Rust mode, reading
/// the version from the version-control metadata. Their order is positional
/// and significant to the external tool.
pub open spec fn module_prefix_args() -> Seq<Seq<char>> {
    seq!["-m"@, "version_builder"@, "--lang"@, "rust"@, "--source"@, "git"@]
}

/// The input arguments when the version source is a discovered
/// version-control root.
pub open spec fn git_input_args(repo_root: Seq<char>) -> Seq<Seq<char>> {
    seq!["--input"@, repo_root]
}

/// The input arguments when the version source is the calling project itself:
/// its directory and its declared package version.
pub open spec fn project_input_args(manifest_dir: Seq<char>, package_version: Seq<char>) -> Seq<
    Seq<char>,
> {
    seq!["--input"@, manifest_dir, "--cargo"@, package_version]
}

/// The input arguments for a given version source.
pub open spec fn input_args(input: VersionInput) -> Seq<Seq<char>> {
    match input {
        VersionInput::GitRoot { repo_root } => git_input_args(repo_root@),
        VersionInput::Project { manifest_dir, package_version } => project_input_args(
            manifest_dir@,
            package_version@,
        ),
    }
}

/// The optional flags for a toggle state: exactly the subset that is set,
/// `--print` before `--time` when both are.
pub open spec fn flag_args(toggles: Toggles) -> Seq<Seq<char>> {
    (if toggles.print_output {
        seq!["--print"@]
    } else {
        Seq::<Seq<char>>::empty()
    }) + (if toggles.include_time {
        seq!["--time"@]
    } else {
        Seq::<Seq<char>>::empty()
    })
}

/// The whole argument list: the fixed arguments, then the input arguments,
/// then the optional flags, and the output file path last.
pub open spec fn command_args(input: VersionInput, toggles: Toggles, out_file: Seq<char>) -> Seq<
    Seq<char>,
> {
    module_prefix_args() + input_args(input) + flag_args(toggles) + seq![out_file]
}

/// Assemble the argument list for the external tool.
pub fn build_args(input: &VersionInput, toggles: Toggles, out_file: &String) -> (r: Vec<String>)
    ensures
        views_of(r@) == command_args(*input, toggles, out_file@),
{
    let mut args: Vec<String> = Vec::new();
    args.push(String::from_str("-m"));
    args.push(String::from_str("version_builder"));
    args.push(String::from_str("--lang"));
    args.push(String::from_str("rust"));
    args.push(String::from_str("--source"));
    args.push(String::from_str("git"));
    args.push(String::from_str("--input"));
    match input {
        VersionInput::GitRoot { repo_root } => {
            args.push(repo_root.clone());
        },
        VersionInput::Project { manifest_dir, package_version } => {
            args.push(manifest_dir.clone());
            args.push(String::from_str("--cargo"));
            args.push(package_version.clone());
        },
    }
    if toggles.print_output {
        args.push(String::from_str("--print"));
    }
    if toggles.include_time {
        args.push(String::from_str("--time"));
    }
    args.push(out_file.clone());
    proof {
        assert(views_of(args@) =~~= command_args(*input, toggles, out_file@));
    }
    args
}

/// Law: for every version source and output path, each of the four toggle
/// states contributes exactly its own subset of the optional flags, every
/// flag standing after all fixed and input arguments and before the output
/// path, which is last.
pub proof fn lemma_flag_subsets(input: VersionInput, out_file: Seq<char>)
    ensures
        command_args(input, (Toggles { print_output: false, include_time: false }), out_file)
            =~~= module_prefix_args() + input_args(input) + seq![out_file],
        command_args(input, (Toggles { print_output: true, include_time: false }), out_file)
            =~~= module_prefix_args() + input_args(input) + seq!["--print"@] + seq![out_file],
        command_args(input, (Toggles { print_output: false, include_time: true }), out_file)
            =~~= module_prefix_args() + input_args(input) + seq!["--time"@] + seq![out_file],
        command_args(input, (Toggles { print_output: true, include_time: true }), out_file)
            =~~= module_prefix_args() + input_args(input) + seq!["--print"@, "--time"@]
            + seq![out_file],
{
}

/// Law: whatever the toggles, the output file path is the last argument.
pub proof fn lemma_output_path_last(input: VersionInput, toggles: Toggles, out_file: Seq<char>)
    ensures
        command_args(input, toggles, out_file).len() > 0,
        command_args(input, toggles, out_file).last() == out_file,
{
}

/// The command handed to the invoker: a program to run, one environment
/// variable to set on it (pointing the interpreter at the helper module's own
/// source directory), and the argument list.
#[derive(Debug)]
pub struct ToolCommand {
    pub program: String,
    pub env_name: String,
    pub env_value: String,
    pub args: Vec<String>,
}

/// What a well-built command looks like for a given interpreter, helper
/// module directory, version source, toggle state and output path.
pub open spec fn is_command_for(
    c: ToolCommand,
    interpreter: Interpreter,
    module_dir: Seq<char>,
    input: VersionInput,
    toggles: Toggles,
    out_file: Seq<char>,
) -> bool {
    &&& c.program@ == executable_name_of(interpreter)
    &&& c.env_name@ == "PYTHONPATH"@
    &&& c.env_value@ == module_dir
    &&& views_of(c.args@) == command_args(input, toggles, out_file)
}

/// Assemble the full command for the external tool.
pub fn build_tool_command(
    interpreter: Interpreter,
    module_dir: &String,
    input: &VersionInput,
    toggles: Toggles,
    out_file: &String,
) -> (c: ToolCommand)
    ensures
        is_command_for(c, interpreter, module_dir@, *input, toggles, out_file@),
{
    ToolCommand {
        program: interpreter.executable_name(),
        env_name: String::from_str("PYTHONPATH"),
        env_value: module_dir.clone(),
        args: build_args(input, toggles, out_file),
    }
}

} // verus!
