//! Finding the root of the project that a directory belongs to: the nearest
//! directory, going upward, that holds a `Gemfile`.

use std::path::Path;
use vstd::prelude::*;
use vstd::string::*;
use crate::paths::{join_path, joined_path};
use crate::text::contains_text;

verus! {

/// What `std::path::Path::parent` returns for the path written `path`:
/// the path without its final component, or `None` where it ends in a root
/// or is empty.
pub uninterp spec fn parent_of(path: Seq<char>) -> Option<Seq<char>>;

/// Calls `std::path::Path::parent`.
///
/// Trusted: the result is the one named by [`parent_of`], and a parent is
/// the path cut short at some earlier position, since it is the same path
/// without its final component.
#[verifier::external_body]
fn parent_dir(path: &str) -> (parent: Option<String>)
    ensures
        parent is Some <==> parent_of(path@) is Some,
        parent matches Some(p) ==> parent_of(path@) == Some(p@),
        parent matches Some(p) ==> (p@.len() < path@.len() && p@ == path@.subrange(
            0,
            p@.len() as int,
        )),
{
    match Path::new(path).parent() {
        Some(p) => Some(p.to_string_lossy().into_owned()),
        None => None,
    }
}

/// Calls `std::path::Path::exists`.
///
/// Trusted, with nothing claimed: the answer depends on what is on disk at
/// the moment of the call.
#[verifier::external_body]
pub(crate) fn path_exists(path: &str) -> (found: bool) {
    Path::new(path).exists()
}

/// The directory one level above `dir`, where there is one.
pub open spec fn parent(dir: Seq<char>) -> Option<Seq<char>> {
    match parent_of(dir) {
        Some(p) => if p.len() < dir.len() {
            Some(p)
        } else {
            None
        },
        None => None,
    }
}

/// `dir` itself, then its parent, and so on up to the last directory that
/// has no parent.
pub open spec fn ancestors(dir: Seq<char>) -> Seq<Seq<char>>
    decreases dir.len(),
{
    match parent(dir) {
        Some(p) => seq![dir] + ancestors(p),
        None => seq![dir],
    }
}

/// The path of the marker file of `dir`.
pub open spec fn marker_path(dir: Seq<char>) -> Seq<char> {
    joined_path(dir, "Gemfile"@)
}

/// `dir` holds the marker file, in a tree whose existing paths are `tree`.
pub open spec fn is_root(dir: Seq<char>, tree: Set<Seq<char>>) -> bool {
    tree.contains(marker_path(dir))
}

/// The project root seen from `start` in the tree `tree`: the first of
/// `start` and its ancestors, going upward, that holds the marker file.
pub open spec fn resolve(start: Seq<char>, tree: Set<Seq<char>>) -> Option<Seq<char>>
    decreases start.len(),
{
    if is_root(start, tree) {
        Some(start)
    } else {
        match parent(start) {
            Some(p) => resolve(p, tree),
            None => None,
        }
    }
}

/// `root` is the nearest project root about `start`: it is `start` or one
/// of its ancestors, it holds the marker file, and no directory on the way
/// up to it does.
pub open spec fn is_nearest_root(start: Seq<char>, root: Seq<char>, tree: Set<Seq<char>>) -> bool {
    exists|k: int|
        0 <= k < ancestors(start).len() && #[trigger] ancestors(start)[k] == root && is_root(
            root,
            tree,
        ) && forall|j: int| 0 <= j < k ==> !is_root(#[trigger] ancestors(start)[j], tree)
}

/// Neither `start` nor any of its ancestors holds the marker file.
pub open spec fn has_no_root(start: Seq<char>, tree: Set<Seq<char>>) -> bool {
    forall|k: int| 0 <= k < ancestors(start).len() ==> !is_root(#[trigger] ancestors(start)[k], tree)
}

/// What the search does next, once it knows whether the directory it looks
/// at holds the marker file.
#[derive(PartialEq, Eq, Debug)]
pub enum Step {
    /// The directory is the project root.
    Found(String),
    /// The search goes on in this directory, the parent.
    Ascend(String),
    /// There is no parent left: the start belongs to no project.
    NotFound,
}

/// One step of the search: `current` is the root if it holds the marker
/// file; otherwise the search moves to its parent, and ends where there is
/// none.
pub fn resolve_step(current: String, marker_present: bool) -> (step: Step)
    ensures
        marker_present ==> (step matches Step::Found(r) && r@ == current@),
        !marker_present ==> match parent(current@) {
            Some(p) => (step matches Step::Ascend(q) && q@ == p),
            None => step is NotFound,
        },
{
    if marker_present {
        Step::Found(current)
    } else {
        match parent_dir(current.as_str()) {
            Some(p) => Step::Ascend(p),
            None => Step::NotFound,
        }
    }
}

/// Finds the project root of `dir` on disk.
///
/// Which directories hold a marker file is for the file system to say, so
/// the result is only known to be `dir` or one of its ancestors; `None`
/// means that the search reached the top without finding a marker.
pub fn project_root(dir: &str) -> (root: Option<String>)
    ensures
        root matches Some(r) ==> ancestors(dir@).contains(r@),
{
    let mut current = String::from_str(dir);
    proof {
        lemma_ancestors_start(dir@);
    }
    loop
        invariant
            ancestors(dir@).contains(current@),
        decreases current@.len(),
    {
        let ghost here = current@;
        let marker = join_path(current.as_str(), "Gemfile");
        let present = path_exists(marker.as_str());
        match resolve_step(current, present) {
            Step::Found(r) => {
                return Some(r);
            },
            Step::Ascend(p) => {
                proof {
                    lemma_ancestors_step(dir@, here);
                }
                current = p;
            },
            Step::NotFound => {
                return None;
            },
        }
    }
}

/// Finds the project root of `dir` in a tree given by the list of its
/// existing paths.
pub fn resolve_among(dir: &str, existing: &Vec<String>) -> (root: Option<String>)
    ensures
        root is Some <==> resolve(dir@, existing.deep_view().to_set()) is Some,
        root matches Some(r) ==> resolve(dir@, existing.deep_view().to_set()) == Some(r@),
{
    let ghost tree = existing.deep_view().to_set();
    let mut current = String::from_str(dir);
    loop
        invariant
            tree == existing.deep_view().to_set(),
            resolve(dir@, tree) == resolve(current@, tree),
        decreases current@.len(),
    {
        let marker = join_path(current.as_str(), "Gemfile");
        let present = contains_text(existing, marker.as_str());
        assert(present == is_root(current@, tree));
        match resolve_step(current, present) {
            Step::Found(r) => {
                return Some(r);
            },
            Step::Ascend(p) => {
                current = p;
            },
            Step::NotFound => {
                return None;
            },
        }
    }
}

/// A directory is the first of its own ancestors.
pub proof fn lemma_ancestors_start(dir: Seq<char>)
    ensures
        ancestors(dir).len() > 0,
        ancestors(dir)[0] == dir,
        ancestors(dir).contains(dir),
{
    assert(ancestors(dir)[0] == dir);
}

/// The parent of an ancestor is an ancestor.
pub proof fn lemma_ancestors_step(dir: Seq<char>, a: Seq<char>)
    requires
        ancestors(dir).contains(a),
    ensures
        parent(a) matches Some(p) ==> ancestors(dir).contains(p),
    decreases dir.len(),
{
    if let Some(p) = parent(a) {
        if a == dir {
            lemma_ancestors_start(p);
            let k = choose|k: int| 0 <= k < ancestors(p).len() && ancestors(p)[k] == p;
            assert(ancestors(dir)[k + 1] == p);
        } else {
            let i = choose|i: int| 0 <= i < ancestors(dir).len() && ancestors(dir)[i] == a;
            assert(i > 0);
            let up = parent(dir)->Some_0;
            assert(ancestors(up)[i - 1] == a);
            lemma_ancestors_step(up, a);
            let k = choose|k: int| 0 <= k < ancestors(up).len() && ancestors(up)[k] == p;
            assert(ancestors(dir)[k + 1] == p);
        }
    }
}

/// From any directory below a project root, with no other root in between,
/// the search yields that root.
pub proof fn lemma_resolve_finds_nearest_root(
    start: Seq<char>,
    root: Seq<char>,
    tree: Set<Seq<char>>,
)
    requires
        is_nearest_root(start, root, tree),
    ensures
        resolve(start, tree) == Some(root),
    decreases start.len(),
{
    let k = choose|k: int|
        0 <= k < ancestors(start).len() && #[trigger] ancestors(start)[k] == root && is_root(
            root,
            tree,
        ) && forall|j: int| 0 <= j < k ==> !is_root(#[trigger] ancestors(start)[j], tree);
    lemma_ancestors_start(start);
    if k > 0 {
        assert(!is_root(ancestors(start)[0], tree));
        let p = parent(start)->Some_0;
        assert(ancestors(p)[k - 1] == root);
        assert forall|j: int| 0 <= j < k - 1 implies !is_root(
            #[trigger] ancestors(p)[j],
            tree,
        ) by {
            assert(ancestors(start)[j + 1] == ancestors(p)[j]);
        }
        lemma_resolve_finds_nearest_root(p, root, tree);
    }
}

/// Whatever the search yields is the nearest project root about its start.
pub proof fn lemma_resolve_yields_nearest_root(start: Seq<char>, tree: Set<Seq<char>>)
    ensures
        resolve(start, tree) matches Some(root) ==> is_nearest_root(start, root, tree),
    decreases start.len(),
{
    lemma_ancestors_start(start);
    if let Some(root) = resolve(start, tree) {
        if is_root(start, tree) {
            assert(ancestors(start)[0] == root);
        } else {
            let p = parent(start)->Some_0;
            lemma_resolve_yields_nearest_root(p, tree);
            let k = choose|k: int|
                0 <= k < ancestors(p).len() && #[trigger] ancestors(p)[k] == root && is_root(
                    root,
                    tree,
                ) && forall|j: int| 0 <= j < k ==> !is_root(#[trigger] ancestors(p)[j], tree);
            assert(ancestors(start)[k + 1] == root);
            assert forall|j: int| 0 <= j < k + 1 implies !is_root(
                #[trigger] ancestors(start)[j],
                tree,
            ) by {
                if j > 0 {
                    assert(ancestors(start)[j] == ancestors(p)[j - 1]);
                }
            }
        }
    }
}

/// The search finds nothing exactly in a tree where neither the start nor
/// any of its ancestors holds the marker file.
pub proof fn lemma_resolve_not_found(start: Seq<char>, tree: Set<Seq<char>>)
    ensures
        resolve(start, tree) is None <==> has_no_root(start, tree),
    decreases start.len(),
{
    lemma_ancestors_start(start);
    if is_root(start, tree) {
        assert(is_root(ancestors(start)[0], tree));
    } else {
        match parent(start) {
            Some(p) => {
                lemma_resolve_not_found(p, tree);
                if has_no_root(start, tree) {
                    assert forall|k: int| 0 <= k < ancestors(p).len() implies !is_root(
                        #[trigger] ancestors(p)[k],
                        tree,
                    ) by {
                        assert(ancestors(start)[k + 1] == ancestors(p)[k]);
                    }
                }
                if has_no_root(p, tree) {
                    assert forall|k: int| 0 <= k < ancestors(start).len() implies !is_root(
                        #[trigger] ancestors(start)[k],
                        tree,
                    ) by {
                        if k > 0 {
                            assert(ancestors(start)[k] == ancestors(p)[k - 1]);
                        }
                    }
                }
            },
            None => {
                assert(ancestors(start) =~= seq![start]);
            },
        }
    }
}

} // verus!
