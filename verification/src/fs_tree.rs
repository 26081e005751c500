//! A value model of the piece of filesystem a deletion request works on: a
//! tree of named files and directories, snapshotted before any destructive
//! action. The conditional deletion pass is planned over this tree; the plan
//! lists, in depth-first order, the path of every file whose name contains
//! the condition. Directories are never listed, whatever their name.

use vstd::prelude::*;
use crate::text::{contains_seq, str_contains};

verus! {

/// One node of the snapshotted tree: a plain file or a directory with its
/// entries in enumeration order.
pub enum FsTree {
    File { name: String },
    Dir { name: String, entries: Vec<FsTree> },
}

/// The paths (each `prefix` plus the node-local path) of the files under `t`
/// whose name contains `cond`, in depth-first order.
pub open spec fn plan_tree(t: FsTree, cond: Seq<char>, prefix: Seq<char>) -> Seq<Seq<char>>
    decreases t,
{
    match t {
        FsTree::File { name } => if contains_seq(name@, cond) {
            seq![prefix + name@]
        } else {
            Seq::empty()
        },
        FsTree::Dir { name, entries } => plan_entries(
            entries@,
            cond,
            prefix + name@ + seq!['/'],
        ),
    }
}

/// The concatenated plans of a directory's entries, in order.
pub open spec fn plan_entries(s: Seq<FsTree>, cond: Seq<char>, prefix: Seq<char>) -> Seq<
    Seq<char>,
>
    decreases s,
{
    if s.len() == 0 {
        Seq::empty()
    } else {
        plan_entries(s.drop_last(), cond, prefix) + plan_tree(s.last(), cond, prefix)
    }
}

fn plan_walk(t: &FsTree, cond: &str, prefix: &str, out: &mut Vec<String>)
    ensures
        final(out).deep_view() == old(out).deep_view() + plan_tree(*t, cond@, prefix@),
    decreases *t,
{
    let ghost base = out.deep_view();
    match t {
        FsTree::File { name } => {
            if str_contains(name.as_str(), cond) {
                let mut p = prefix.to_owned();
                p.append(name.as_str());
                out.push(p);
                proof {
                    assert(out.deep_view() =~= base + seq![prefix@ + name@]);
                }
            } else {
                proof {
                    assert(out.deep_view() =~= base + Seq::<Seq<char>>::empty());
                }
            }
        },
        FsTree::Dir { name, entries } => {
            let mut p = prefix.to_owned();
            p.append(name.as_str());
            p.append("/");
            proof {
                reveal_strlit("/");
                assert(p@ =~= prefix@ + name@ + seq!['/']);
            }
            let n = entries.len();
            let mut i: usize = 0;
            proof {
                assert(entries@.take(0) =~= Seq::<FsTree>::empty());
            }
            while i < n
                invariant
                    *t is Dir,
                    (*t)->Dir_entries == *entries,
                    n == entries@.len(),
                    i <= n,
                    p@ == prefix@ + name@ + seq!['/'],
                    out.deep_view() == base + plan_entries(entries@.take(i as int), cond@, p@),
                decreases n - i,
            {
                proof {
                    assert(decreases_to!(*t => (*t)->Dir_entries));
                    assert(decreases_to!(*entries => entries@));
                    assert(decreases_to!(entries@ => entries@[i as int]));
                    assert(decreases_to!(*t => entries@[i as int]));
                }
                plan_walk(&entries[i], cond, p.as_str(), out);
                proof {
                    assert(entries@.take(i + 1).drop_last() =~= entries@.take(i as int));
                    assert(entries@.take(i + 1).last() == entries@[i as int]);
                }
                i = i + 1;
            }
            proof {
                assert(entries@.take(n as int) =~= entries@);
            }
        },
    }
}

/// Law: every path the conditional pass plans for deletion belongs to a file
/// whose name contains the condition, so the planned path itself contains
/// the condition.
pub proof fn lemma_planned_path_contains_condition(
    t: FsTree,
    cond: Seq<char>,
    prefix: Seq<char>,
    i: int,
)
    requires
        0 <= i < plan_tree(t, cond, prefix).len(),
    ensures
        contains_seq(plan_tree(t, cond, prefix)[i], cond),
    decreases t,
{
    match t {
        FsTree::File { name } => {
            if contains_seq(name@, cond) {
                crate::text::lemma_contains_in_suffix(prefix, name@, cond);
            }
        },
        FsTree::Dir { name, entries } => {
            lemma_planned_entries_contain_condition(
                entries@,
                cond,
                prefix + name@ + seq!['/'],
                i,
            );
        },
    }
}

/// The same law over a directory's entry list.
pub proof fn lemma_planned_entries_contain_condition(
    s: Seq<FsTree>,
    cond: Seq<char>,
    prefix: Seq<char>,
    i: int,
)
    requires
        0 <= i < plan_entries(s, cond, prefix).len(),
    ensures
        contains_seq(plan_entries(s, cond, prefix)[i], cond),
    decreases s,
{
    let left = plan_entries(s.drop_last(), cond, prefix);
    if i < left.len() {
        lemma_planned_entries_contain_condition(s.drop_last(), cond, prefix, i);
    } else {
        lemma_planned_path_contains_condition(s.last(), cond, prefix, i - left.len());
    }
}

/// Plans the conditional deletion pass: returns the path of every file under
/// `root` whose name contains `condition`, in depth-first traversal order.
/// The returned paths start with the name of `root` itself; directories are
/// never returned.
pub fn remove_all_sub_files_by_condition(root: &FsTree, condition: &str) -> (r: Vec<String>)
    ensures
        r.deep_view() == plan_tree(*root, condition@, Seq::empty()),
{
    let mut out: Vec<String> = Vec::new();
    proof {
        assert(out.deep_view() =~= Seq::<Seq<char>>::empty());
    }
    plan_walk(root, condition, "", &mut out);
    proof {
        reveal_strlit("");
        assert(""@ =~= Seq::<char>::empty());
        assert(out.deep_view() =~= plan_tree(*root, condition@, Seq::empty()));
    }
    out
}

} // verus!
