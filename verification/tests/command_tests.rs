use version_builder::command::build_args;
use version_builder::command::build_tool_command;
use version_builder::command::Toggles;
use version_builder::command::VersionInput;
use version_builder::prober::Interpreter;

fn git_input() -> VersionInput {
    VersionInput::GitRoot { repo_root: "/work/repo".to_string() }
}

fn fixed_prefix() -> Vec<String> {
    vec![
        "-m".to_string(),
        "version_builder".to_string(),
        "--lang".to_string(),
        "rust".to_string(),
        "--source".to_string(),
        "git".to_string(),
        "--input".to_string(),
        "/work/repo".to_string(),
    ]
}

#[test]
fn no_toggles_yields_no_optional_flags() {
    let toggles = Toggles { print_output: false, include_time: false };
    let args = build_args(&git_input(), toggles, &"/out/version.rs".to_string());
    let mut expected = fixed_prefix();
    expected.push("/out/version.rs".to_string());
    assert_eq!(args, expected);
}

#[test]
fn print_toggle_alone_appends_print_flag() {
    let toggles = Toggles { print_output: true, include_time: false };
    let args = build_args(&git_input(), toggles, &"/out/version.rs".to_string());
    let mut expected = fixed_prefix();
    expected.push("--print".to_string());
    expected.push("/out/version.rs".to_string());
    assert_eq!(args, expected);
}

#[test]
fn time_toggle_alone_appends_time_flag() {
    let toggles = Toggles { print_output: false, include_time: true };
    let args = build_args(&git_input(), toggles, &"/out/version.rs".to_string());
    let mut expected = fixed_prefix();
    expected.push("--time".to_string());
    expected.push("/out/version.rs".to_string());
    assert_eq!(args, expected);
}

#[test]
fn both_toggles_append_both_flags_before_output_path() {
    let toggles = Toggles { print_output: true, include_time: true };
    let args = build_args(&git_input(), toggles, &"/out/version.rs".to_string());
    let mut expected = fixed_prefix();
    expected.push("--print".to_string());
    expected.push("--time".to_string());
    expected.push("/out/version.rs".to_string());
    assert_eq!(args, expected);
}

#[test]
fn project_input_carries_cargo_version() {
    let input = VersionInput::Project {
        manifest_dir: "/work/crate".to_string(),
        package_version: "1.2.3".to_string(),
    };
    let toggles = Toggles { print_output: false, include_time: false };
    let args = build_args(&input, toggles, &"/out/version.rs".to_string());
    assert_eq!(
        args,
        vec![
            "-m".to_string(),
            "version_builder".to_string(),
            "--lang".to_string(),
            "rust".to_string(),
            "--source".to_string(),
            "git".to_string(),
            "--input".to_string(),
            "/work/crate".to_string(),
            "--cargo".to_string(),
            "1.2.3".to_string(),
            "/out/version.rs".to_string(),
        ]
    );
}

#[test]
fn output_path_is_always_last() {
    for print_output in [false, true] {
        for include_time in [false, true] {
            let toggles = Toggles { print_output, include_time };
            let args = build_args(&git_input(), toggles, &"/out/version.rs".to_string());
            assert_eq!(args.last().unwrap(), "/out/version.rs");
        }
    }
}

#[test]
fn tool_command_sets_program_and_module_path() {
    let toggles = Toggles { print_output: false, include_time: false };
    let command = build_tool_command(
        Interpreter::Python3,
        &"/work/crate/src".to_string(),
        &git_input(),
        toggles,
        &"/out/version.rs".to_string(),
    );
    assert_eq!(command.program, "python3");
    assert_eq!(command.env_name, "PYTHONPATH");
    assert_eq!(command.env_value, "/work/crate/src");
    let mut expected = fixed_prefix();
    expected.push("/out/version.rs".to_string());
    assert_eq!(command.args, expected);
}
