//! Classification of the output path handed over by the version-control
//! tool.
//!
//! The tool passes a path whose final components say what is being edited:
//! a commit message, a rebase todo list, or a patch-hunk edit. Anything
//! else is a malformed invocation. Components are separated by `'/'`; a
//! suffix only counts when it starts on a component boundary.

use vstd::prelude::*;

verus! {

/// What the output path asks for.
#[derive(Clone, Copy, Debug, PartialEq, Eq, Structural)]
pub enum OutPathKind {
    /// A commit message is to be composed.
    EditMessage,
    /// A rebase todo list is to be edited.
    RebaseTodo,
    /// A patch hunk is to be edited.
    AddPHunkEdit,
    /// The path matches no recognized shape.
    Unrecognized,
}

/// `p` ends with the path suffix `suffix` on a whole component boundary:
/// `p` is `suffix` itself, or `suffix` follows a `'/'` in `p`.
pub open spec fn path_ends_with(p: Seq<char>, suffix: Seq<char>) -> bool {
    p.len() >= suffix.len() && p.skip(p.len() - suffix.len()) == suffix && (p.len() == suffix.len()
        || p[p.len() - suffix.len() - 1] == '/')
}

/// Whether the path ends with the given component suffix.
fn ends_with_path(p: &Vec<char>, suffix: &str) -> (r: bool)
    ensures
        r == path_ends_with(p@, suffix@),
{
    let m = suffix.unicode_len();
    let n = p.len();
    if n < m {
        return false;
    }
    if n > m && p[n - m - 1] != '/' {
        return false;
    }
    let mut j: usize = 0;
    while j < m
        invariant
            j <= m == suffix@.len(),
            m <= n == p@.len(),
            forall|t: int| 0 <= t < j ==> p@[n - m + t] == suffix@[t],
        decreases m - j,
    {
        if p[n - m + j] != suffix.get_char(j) {
            proof {
                assert(p@.skip((n - m) as int)[j as int] == p@[(n - m + j) as int]);
            }
            return false;
        }
        j = j + 1;
    }
    proof {
        assert(p@.skip((n - m) as int) =~= suffix@);
    }
    true
}

/// The kind the path classifies as: the first matching recognized suffix,
/// or [`OutPathKind::Unrecognized`].
pub open spec fn classify_spec(p: Seq<char>) -> OutPathKind {
    if path_ends_with(p, ".git/COMMIT_EDITMSG"@) {
        OutPathKind::EditMessage
    } else if path_ends_with(p, ".git/rebase-merge/git-rebase-todo"@) {
        OutPathKind::RebaseTodo
    } else if path_ends_with(p, ".git/addp-hunk-edit.diff"@) {
        OutPathKind::AddPHunkEdit
    } else {
        OutPathKind::Unrecognized
    }
}

/// Classify the output path by its recognized final components.
pub fn classify_out_path(path: &Vec<char>) -> (k: OutPathKind)
    ensures
        k == classify_spec(path@),
{
    if ends_with_path(path, ".git/COMMIT_EDITMSG") {
        OutPathKind::EditMessage
    } else if ends_with_path(path, ".git/rebase-merge/git-rebase-todo") {
        OutPathKind::RebaseTodo
    } else if ends_with_path(path, ".git/addp-hunk-edit.diff") {
        OutPathKind::AddPHunkEdit
    } else {
        OutPathKind::Unrecognized
    }
}

} // verus!
