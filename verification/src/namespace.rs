//! Session namespaces: the flat directory name under which a project's
//! session files are kept.

use vstd::prelude::*;
use vstd::string::*;

verus! {

/// The character that stands for a path separator inside a namespace.
pub open spec fn flattened(c: char) -> char {
    if c == '/' {
        '+'
    } else {
        c
    }
}

/// The namespace of a project root: the root with every path separator
/// replaced by `+`, all other characters kept in place.
pub open spec fn namespace_of(root: Seq<char>) -> Seq<char> {
    Seq::new(root.len(), |i: int| flattened(root[i]))
}

/// Two positions agree up to the confusion of `/` with `+`.
pub open spec fn same_when_flattened(a: Seq<char>, b: Seq<char>) -> bool {
    &&& a.len() == b.len()
    &&& forall|i: int| 0 <= i < a.len() ==> flattened(#[trigger] a[i]) == flattened(b[i])
}

/// Derives the session namespace of `root`.
///
/// The result has as many characters as `root` and holds no path separator,
/// so it names a single directory entry.
pub fn session_namespace(root: &str) -> (ns: String)
    ensures
        ns@ == namespace_of(root@),
        ns@.len() == root@.len(),
        !ns@.contains('/'),
{
    let n: usize = root.unicode_len();
    let mut ns = String::new();
    let mut i: usize = 0;
    while i < n
        invariant
            i <= n,
            n == root@.len(),
            ns@ == namespace_of(root@.subrange(0, i as int)),
        decreases n - i,
    {
        let c = root.get_char(i);
        if c == '/' {
            proof {
                reveal_strlit("+");
            }
            ns.append("+");
        } else {
            ns.append(root.substring_char(i, i + 1));
        }
        assert(ns@ =~= namespace_of(root@.subrange(0, i + 1)));
        i += 1;
    }
    assert(root@.subrange(0, n as int) =~= root@);
    proof {
        lemma_namespace_is_one_segment(root@);
    }
    ns
}

/// A namespace never holds a path separator.
pub proof fn lemma_namespace_is_one_segment(root: Seq<char>)
    ensures
        !namespace_of(root).contains('/'),
        namespace_of(root).len() == root.len(),
{
}

/// Two roots share a namespace exactly when they have the same length and
/// differ at most in positions where one holds `/` and the other `+`.
pub proof fn lemma_namespace_collisions(a: Seq<char>, b: Seq<char>)
    ensures
        namespace_of(a) == namespace_of(b) <==> same_when_flattened(a, b),
{
    if same_when_flattened(a, b) {
        assert(namespace_of(a) =~= namespace_of(b));
    }
    if namespace_of(a) == namespace_of(b) {
        assert(a.len() == namespace_of(a).len());
        assert(b.len() == namespace_of(b).len());
        assert forall|i: int| 0 <= i < a.len() implies flattened(#[trigger] a[i]) == flattened(
            b[i],
        ) by {
            assert(namespace_of(a)[i] == flattened(a[i]));
            assert(namespace_of(b)[i] == flattened(b[i]));
        }
    }
}

/// Derivation is injective on roots that do not themselves hold a `+`:
/// two such roots with the same namespace are the same root.
pub proof fn lemma_namespace_injective(a: Seq<char>, b: Seq<char>)
    requires
        !a.contains('+'),
        !b.contains('+'),
        namespace_of(a) == namespace_of(b),
    ensures
        a == b,
{
    lemma_namespace_collisions(a, b);
    assert forall|i: int| 0 <= i < a.len() implies a[i] == b[i] by {
        assert(a.contains(a[i]));
        assert(b.contains(b[i]));
        assert(flattened(a[i]) == flattened(b[i]));
    }
    assert(a =~= b);
}

} // verus!
