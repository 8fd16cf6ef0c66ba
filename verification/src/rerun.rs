use vstd::prelude::*;

use crate::command::views_of;

verus! {

/// The environment variable behind the verbose-output toggle.
pub open spec fn print_toggle_env() -> Seq<char> {
    "CARGO_FEATURE_PRINT_OUTPUT"@
}

/// The environment variable behind the embedded-timestamp toggle.
pub open spec fn time_toggle_env() -> Seq<char> {
    "CARGO_FEATURE_INCLUDE_TIME"@
}

/// The directive telling the enclosing build system to re-run this step when
/// an environment variable changes.
pub open spec fn env_trigger_line(name: Seq<char>) -> Seq<char> {
    "cargo:rerun-if-env-changed="@ + name
}

/// The directive telling the enclosing build system to re-run this step when
/// a file or directory changes.
pub open spec fn path_trigger_line(path: Seq<char>) -> Seq<char> {
    "cargo:rerun-if-changed="@ + path
}

/// The rebuild declarations after a successful run: one line per trigger,
/// first the two toggle environment variables, then one line per watched
/// path.
pub open spec fn declaration_lines(watched_paths: Seq<Seq<char>>) -> Seq<Seq<char>> {
    seq![env_trigger_line(print_toggle_env()), env_trigger_line(time_toggle_env())]
        + watched_paths.map_values(|p: Seq<char>| path_trigger_line(p))
}

/// Produce the rebuild declarations for the given watched paths.
pub fn rebuild_declarations(watched_paths: &Vec<String>) -> (lines: Vec<String>)
    ensures
        views_of(lines@) == declaration_lines(views_of(watched_paths@)),
{
    let mut lines: Vec<String> = Vec::new();
    lines.push(String::from_str("cargo:rerun-if-env-changed=").concat("CARGO_FEATURE_PRINT_OUTPUT"));
    lines.push(String::from_str("cargo:rerun-if-env-changed=").concat("CARGO_FEATURE_INCLUDE_TIME"));
    let mut i: usize = 0;
    while i < watched_paths.len()
        invariant
            i <= watched_paths@.len(),
            lines@.len() == 2 + i,
            lines@[0]@ == env_trigger_line(print_toggle_env()),
            lines@[1]@ == env_trigger_line(time_toggle_env()),
            forall|j: int| 0 <= j < i ==> lines@[2 + j]@ == path_trigger_line(watched_paths@[j]@),
        decreases watched_paths@.len() - i,
    {
        lines.push(String::from_str("cargo:rerun-if-changed=").concat(watched_paths[i].as_str()));
        i += 1;
    }
    proof {
        assert(views_of(lines@) =~~= declaration_lines(views_of(watched_paths@)));
    }
    lines
}

/// Appending different suffixes to one prefix gives different lines.
proof fn lemma_append_distinct(prefix: Seq<char>, x: Seq<char>, y: Seq<char>)
    requires
        x != y,
    ensures
        prefix + x != prefix + y,
{
    if prefix + x == prefix + y {
        assert((prefix + x).subrange(prefix.len() as int, (prefix + x).len() as int) =~= x);
        assert((prefix + y).subrange(prefix.len() as int, (prefix + y).len() as int) =~= y);
    }
}

/// Law: after a successful run there is exactly one rebuild-declaration line
/// per declared trigger — two for the toggle environment variables and one
/// per watched path — and no trigger is declared twice: as long as the
/// watched paths are pairwise distinct, so are all the lines.
pub proof fn lemma_declarations_distinct(watched_paths: Seq<Seq<char>>)
    requires
        forall|i: int, j: int|
            0 <= i < j < watched_paths.len() ==> watched_paths[i] != watched_paths[j],
    ensures
        declaration_lines(watched_paths).len() == 2 + watched_paths.len(),
        forall|i: int, j: int|
            0 <= i < j < declaration_lines(watched_paths).len() ==> declaration_lines(
                watched_paths,
            )[i] != declaration_lines(watched_paths)[j],
{
    let lines = declaration_lines(watched_paths);
    reveal_strlit("cargo:rerun-if-env-changed=");
    reveal_strlit("cargo:rerun-if-changed=");
    reveal_strlit("CARGO_FEATURE_PRINT_OUTPUT");
    reveal_strlit("CARGO_FEATURE_INCLUDE_TIME");
    // The two environment lines differ: the variable names differ at their
    // fifteenth character.
    assert(print_toggle_env()[14] != time_toggle_env()[14]);
    assert(print_toggle_env() != time_toggle_env());
    lemma_append_distinct("cargo:rerun-if-env-changed="@, print_toggle_env(), time_toggle_env());
    // An environment line and a path line differ: their prefixes part at
    // index 15 ('e' against 'c'), and both lines reach that index.
    assert forall|k: int| 2 <= k < lines.len() implies lines[0] != #[trigger] lines[k] && lines[1]
        != lines[k] by {
        let p = watched_paths[k - 2];
        assert(lines[k] == path_trigger_line(p));
        assert(path_trigger_line(p)[15] == 'c');
        assert(env_trigger_line(print_toggle_env())[15] == 'e');
        assert(env_trigger_line(time_toggle_env())[15] == 'e');
    }
    // Two path lines with distinct paths differ.
    assert forall|i: int, j: int| 2 <= i < j < lines.len() implies lines[i] != lines[j] by {
        lemma_append_distinct(
            "cargo:rerun-if-changed="@,
            watched_paths[i - 2],
            watched_paths[j - 2],
        );
    }
}

} // verus!
