//! The file subcommand: conditional recursive deletion under a root path,
//! gated by a confirmation. The engine decides over a snapshot of the tree;
//! executing the decided plan against the real filesystem is left to the
//! caller, which also owns the prompt and reports any deletion failure.

use vstd::prelude::*;
use crate::errors::CmdError;
use crate::fs_tree::{FsTree, plan_tree, remove_all_sub_files_by_condition};
use crate::registry::{Command, CommandKind, Module};

verus! {

/// The file subcommand.
pub struct File {}

impl Command for File {
    /// The registry entry of the file subcommand.
    fn module() -> (d: Module)
        ensures
            d.name@ == "file"@,
            d.desc@ == "file operations: conditional recursive deletion"@,
            d.kind == CommandKind::FileOps,
    {
        Module {
            name: "file".to_owned(),
            desc: "file operations: conditional recursive deletion".to_owned(),
            kind: CommandKind::FileOps,
        }
    }
}

/// What the engine decided to do to the filesystem.
pub enum DeleteAction {
    /// Leave the filesystem untouched (the user declined).
    Keep,
    /// Remove the root path itself: recursively when it is a directory, as a
    /// single file otherwise.
    RemoveRoot { is_dir: bool },
    /// Remove exactly the listed files, in order.
    RemoveFiles { paths: Vec<String> },
}

/// The engine's decision together with the result lines to report.
pub struct DeletePlan {
    pub action: DeleteAction,
    pub lines: Vec<String>,
}

/// The single result line of an unconditional deletion of the root path.
pub open spec fn root_line(t: FsTree, path: Seq<char>) -> Seq<char> {
    if t is Dir {
        "deleted directory: "@ + path
    } else {
        "deleted file: "@ + path
    }
}

/// One result line per deleted file, in deletion order.
pub open spec fn file_lines(paths: Seq<Seq<char>>) -> Seq<Seq<char>> {
    Seq::new(paths.len(), |i: int| "deleted file: "@ + paths[i])
}

/// The contract of the deletion engine, over the snapshot (`None` when the
/// root path does not exist), the root path as given, the optional filename
/// condition, and the answer of the confirmation gate.
pub open spec fn delete_post(
    root: Option<FsTree>,
    path: Seq<char>,
    condition: Option<Seq<char>>,
    confirmed: bool,
    r: Result<DeletePlan, CmdError>,
) -> bool {
    match root {
        None => r matches Err(CmdError::PathNotFound),
        Some(t) => if !confirmed {
            r matches Ok(p) && p.action is Keep && p.lines.deep_view() == seq!["cancelled"@]
        } else {
            match condition {
                None => r matches Ok(p) && (p.action == (DeleteAction::RemoveRoot {
                    is_dir: t is Dir,
                })) && p.lines.deep_view() == seq![root_line(t, path)],
                Some(c) => r matches Ok(p) && (p.action matches DeleteAction::RemoveFiles {
                    paths,
                } && paths.deep_view() == plan_tree(t, c, Seq::empty())) && p.lines.deep_view()
                    == file_lines(plan_tree(t, c, Seq::empty())),
            }
        },
    }
}

/// Decides a deletion request. `root` is the snapshot of what stands at the
/// requested path, or `None` when nothing does; `path` is the path as the
/// user gave it; `confirmed` is the answer of the confirmation gate.
///
/// A missing root fails with `PathNotFound` whatever the condition and the
/// confirmation; a declined confirmation keeps the filesystem unchanged; an
/// absent condition removes the whole root; a present condition removes
/// exactly the files whose name contains it, directories never.
pub fn remove_file_by_condition(
    root: Option<&FsTree>,
    path: &str,
    condition: Option<&str>,
    confirmed: bool,
) -> (r: Result<DeletePlan, CmdError>)
    ensures
        delete_post(
            match root {
                Some(t) => Some(*t),
                None => None,
            },
            path@,
            match condition {
                Some(c) => Some(c@),
                None => None,
            },
            confirmed,
            r,
        ),
        root is None <==> r is Err,
{
    match root {
        None => Err(CmdError::PathNotFound),
        Some(t) => {
            if !confirmed {
                let lines = vec!["cancelled".to_owned()];
                proof {
                    assert(lines.deep_view() =~= seq!["cancelled"@]);
                }
                return Ok(DeletePlan { action: DeleteAction::Keep, lines });
            }
            match condition {
                None => {
                    let is_dir = match t {
                        FsTree::Dir { .. } => true,
                        FsTree::File { .. } => false,
                    };
                    let mut line = if is_dir {
                        "deleted directory: ".to_owned()
                    } else {
                        "deleted file: ".to_owned()
                    };
                    line.append(path);
                    let lines = vec![line];
                    proof {
                        assert(lines.deep_view() =~= seq![root_line(*t, path@)]);
                    }
                    Ok(DeletePlan { action: DeleteAction::RemoveRoot { is_dir }, lines })
                },
                Some(c) => {
                    let paths = remove_all_sub_files_by_condition(t, c);
                    let ghost pp = paths.deep_view();
                    let n = paths.len();
                    let mut lines: Vec<String> = Vec::new();
                    let mut i: usize = 0;
                    while i < n
                        invariant
                            n == paths@.len(),
                            i <= n,
                            pp == paths.deep_view(),
                            pp.len() == n,
                            lines@.len() == i,
                            forall|k: int|
                                0 <= k < i ==> lines@[k]@ == "deleted file: "@ + pp[k],
                        decreases n - i,
                    {
                        let mut line = "deleted file: ".to_owned();
                        line.append(paths[i].as_str());
                        proof {
                            assert(paths.deep_view()[i as int] == paths@[i as int]@);
                            assert(line@ == "deleted file: "@ + pp[i as int]);
                        }
                        lines.push(line);
                        i = i + 1;
                    }
                    proof {
                        assert(forall|k: int|
                            0 <= k < n ==> #[trigger] lines.deep_view()[k] == lines@[k]@);
                        assert(lines.deep_view() =~= file_lines(pp));
                    }
                    Ok(DeletePlan { action: DeleteAction::RemoveFiles { paths }, lines })
                },
            }
        },
    }
}

/// The handler of the file subcommand: the deletion behaviour must be
/// selected by its flag, everything else is an invalid command.
pub fn file_run(
    remove: bool,
    root: Option<&FsTree>,
    path: &str,
    condition: Option<&str>,
    confirmed: bool,
) -> (r: Result<DeletePlan, CmdError>)
    ensures
        !remove <==> r matches Err(CmdError::InvalidArgument),
        remove ==> delete_post(
            match root {
                Some(t) => Some(*t),
                None => None,
            },
            path@,
            match condition {
                Some(c) => Some(c@),
                None => None,
            },
            confirmed,
            r,
        ),
        remove ==> (root is None <==> r is Err),
{
    if remove {
        remove_file_by_condition(root, path, condition, confirmed)
    } else {
        Err(CmdError::InvalidArgument)
    }
}

} // verus!
