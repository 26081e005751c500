use mcli::errors::CmdError;
use mcli::file_cmd::{file_run, remove_file_by_condition, DeleteAction, DeletePlan, File};
use mcli::fs_tree::{remove_all_sub_files_by_condition, FsTree};
use mcli::registry::{Command, CommandKind};
use mcli::text::str_contains;

fn file(name: &str) -> FsTree {
    FsTree::File {
        name: name.to_string(),
    }
}

fn dir(name: &str, entries: Vec<FsTree>) -> FsTree {
    FsTree::Dir {
        name: name.to_string(),
        entries,
    }
}

fn sample_tree() -> FsTree {
    dir(
        "root",
        vec![file("a(2).txt"), file("a.txt"), dir("sub", vec![file("b(2).txt")])],
    )
}

fn paths_of(plan: DeletePlan) -> Vec<String> {
    match plan.action {
        DeleteAction::RemoveFiles { paths } => paths,
        _ => panic!("expected a per-file removal"),
    }
}

#[test]
fn file_module_descriptor() {
    let d = File::module();
    assert_eq!(d.name, "file");
    assert!(matches!(d.kind, CommandKind::FileOps));
}

#[test]
fn substring_condition_on_names() {
    assert!(str_contains("a(2).txt", "(2)"));
    assert!(!str_contains("a.txt", "(2)"));
    assert!(str_contains("anything", ""));
    assert!(!str_contains("", "x"));
    assert!(str_contains("abcabd", "abd"));
}

#[test]
fn conditional_deletion_removes_matching_files_only() {
    let tree = sample_tree();
    let plan = remove_file_by_condition(Some(&tree), "root", Some("(2)"), true).unwrap();
    let lines = plan.lines.clone();
    let paths = paths_of(plan);
    assert_eq!(
        paths,
        vec!["root/a(2).txt".to_string(), "root/sub/b(2).txt".to_string()]
    );
    // a.txt does not match and the directory sub is never listed.
    assert!(!paths.contains(&"root/a.txt".to_string()));
    assert!(!paths.iter().any(|p| p == "root/sub" || p == "root/sub/"));
    // Every planned path carries the condition.
    assert!(paths.iter().all(|p| p.contains("(2)")));
    assert_eq!(
        lines,
        vec![
            "deleted file: root/a(2).txt".to_string(),
            "deleted file: root/sub/b(2).txt".to_string()
        ]
    );
}

#[test]
fn matching_directory_names_are_not_deleted() {
    let tree = dir("top", vec![dir("d(2)", vec![file("inner.txt")]), file("x(2)")]);
    let paths = remove_all_sub_files_by_condition(&tree, "(2)");
    assert_eq!(paths, vec!["top/x(2)".to_string()]);
}

#[test]
fn conditional_deletion_of_a_single_matching_file() {
    let paths = remove_all_sub_files_by_condition(&file("note(2).md"), "(2)");
    assert_eq!(paths, vec!["note(2).md".to_string()]);
    let paths = remove_all_sub_files_by_condition(&file("note.md"), "(2)");
    assert!(paths.is_empty());
}

#[test]
fn declined_confirmation_changes_nothing() {
    let tree = sample_tree();
    let plan = remove_file_by_condition(Some(&tree), "root", None, false).unwrap();
    assert!(matches!(plan.action, DeleteAction::Keep));
    assert_eq!(plan.lines, vec!["cancelled".to_string()]);

    let plan = remove_file_by_condition(Some(&tree), "root", Some("(2)"), false).unwrap();
    assert!(matches!(plan.action, DeleteAction::Keep));
    assert_eq!(plan.lines, vec!["cancelled".to_string()]);
}

#[test]
fn missing_root_fails_without_prompting() {
    for condition in [None, Some("(2)")] {
        for confirmed in [false, true] {
            let r = remove_file_by_condition(None, "gone", condition, confirmed);
            assert!(matches!(r, Err(CmdError::PathNotFound)));
        }
    }
    assert_eq!(
        CmdError::PathNotFound.message(),
        "path does not exist".to_string()
    );
}

#[test]
fn unconditional_deletion_of_a_plain_file() {
    let tree = file("data.txt");
    let plan = remove_file_by_condition(Some(&tree), "data.txt", None, true).unwrap();
    assert!(matches!(plan.action, DeleteAction::RemoveRoot { is_dir: false }));
    assert_eq!(plan.lines, vec!["deleted file: data.txt".to_string()]);
}

#[test]
fn unconditional_deletion_of_a_directory() {
    let tree = sample_tree();
    let plan = remove_file_by_condition(Some(&tree), "root", None, true).unwrap();
    assert!(matches!(plan.action, DeleteAction::RemoveRoot { is_dir: true }));
    assert_eq!(plan.lines, vec!["deleted directory: root".to_string()]);
}

#[test]
fn file_run_requires_the_remove_flag() {
    let tree = sample_tree();
    let r = file_run(false, Some(&tree), "root", None, true);
    assert!(matches!(r, Err(CmdError::InvalidArgument)));
    assert_eq!(
        CmdError::InvalidArgument.message(),
        "invalid command".to_string()
    );
    let r = file_run(true, Some(&tree), "root", None, true).unwrap();
    assert!(matches!(r.action, DeleteAction::RemoveRoot { is_dir: true }));
}

#[test]
fn io_error_carries_its_reason() {
    let e = CmdError::IOError("permission denied".to_string());
    assert_eq!(e.message(), "io error: permission denied".to_string());
}
