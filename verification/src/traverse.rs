//! The traversal engine's algorithm, verified on a modeled directory tree:
//! an explicit frontier of pending nodes is expanded until every reachable
//! regular file has been counted, so that depth is never bounded by the call
//! stack. The total is pinned to the sum over the tree, independent of the
//! order in which the frontier is worked off.

use vstd::prelude::*;
use crate::count::count_chunk;
use crate::count::newline_count;

verus! {

/// A modeled directory tree: a regular file with its contents, or a
/// directory with its entries.
pub enum FsTree {
    File(Vec<u8>),
    Directory(Vec<FsTree>),
}

/// The newline count of every regular file reachable in `t`, summed.
pub open spec fn tree_newlines(t: FsTree) -> nat
    decreases t,
{
    match t {
        FsTree::File(content) => newline_count(content@),
        FsTree::Directory(children) => forest_newlines(children@),
    }
}

/// The newline count summed over a sequence of trees.
pub open spec fn forest_newlines(f: Seq<FsTree>) -> nat
    decreases f,
{
    if f.len() == 0 {
        0
    } else {
        tree_newlines(f[0]) + forest_newlines(f.subrange(1, f.len() as int))
    }
}

/// The number of nodes in `t`: the traversal's termination measure.
pub open spec fn tree_size(t: FsTree) -> nat
    decreases t,
{
    match t {
        FsTree::File(_) => 1,
        FsTree::Directory(children) => 1 + forest_size(children@),
    }
}

/// The number of nodes summed over a sequence of trees.
pub open spec fn forest_size(f: Seq<FsTree>) -> nat
    decreases f,
{
    if f.len() == 0 {
        0
    } else {
        tree_size(f[0]) + forest_size(f.subrange(1, f.len() as int))
    }
}

/// Splitting a forest into two parts splits its newline count: what a subtree
/// contributes does not depend on which batch it is expanded in.
pub proof fn lemma_forest_newlines_concat(a: Seq<FsTree>, b: Seq<FsTree>)
    ensures
        forest_newlines(a + b) == forest_newlines(a) + forest_newlines(b),
    decreases a.len(),
{
    if a.len() == 0 {
        assert(a + b =~= b);
    } else {
        assert((a + b)[0] == a[0]);
        assert((a + b).subrange(1, (a + b).len() as int) =~= a.subrange(1, a.len() as int) + b);
        lemma_forest_newlines_concat(a.subrange(1, a.len() as int), b);
    }
}

/// A forest of one tree counts exactly that tree.
pub proof fn lemma_forest_newlines_singleton(t: FsTree)
    ensures
        forest_newlines(seq![t]) == tree_newlines(t),
{
    assert(seq![t].subrange(1, 1) =~= Seq::<FsTree>::empty());
    assert(forest_newlines(Seq::<FsTree>::empty()) == 0);
    assert(seq![t][0] == t);
}

/// Taking the last tree off a forest takes off exactly its count.
pub proof fn lemma_forest_newlines_drop_last(f: Seq<FsTree>)
    requires
        f.len() > 0,
    ensures
        forest_newlines(f) == forest_newlines(f.drop_last()) + tree_newlines(f.last()),
{
    assert(f =~= f.drop_last() + seq![f.last()]);
    lemma_forest_newlines_concat(f.drop_last(), seq![f.last()]);
    lemma_forest_newlines_singleton(f.last());
}

/// Splitting a forest into two parts splits its node count.
pub proof fn lemma_forest_size_concat(a: Seq<FsTree>, b: Seq<FsTree>)
    ensures
        forest_size(a + b) == forest_size(a) + forest_size(b),
    decreases a.len(),
{
    if a.len() == 0 {
        assert(a + b =~= b);
    } else {
        assert((a + b)[0] == a[0]);
        assert((a + b).subrange(1, (a + b).len() as int) =~= a.subrange(1, a.len() as int) + b);
        lemma_forest_size_concat(a.subrange(1, a.len() as int), b);
    }
}

/// A forest of one tree has exactly that tree's nodes.
pub proof fn lemma_forest_size_singleton(t: FsTree)
    ensures
        forest_size(seq![t]) == tree_size(t),
{
    assert(seq![t].subrange(1, 1) =~= Seq::<FsTree>::empty());
    assert(forest_size(Seq::<FsTree>::empty()) == 0);
    assert(seq![t][0] == t);
}

/// Taking the last tree off a forest takes off exactly its nodes.
pub proof fn lemma_forest_size_drop_last(f: Seq<FsTree>)
    requires
        f.len() > 0,
    ensures
        forest_size(f) == forest_size(f.drop_last()) + tree_size(f.last()),
{
    assert(f =~= f.drop_last() + seq![f.last()]);
    lemma_forest_size_concat(f.drop_last(), seq![f.last()]);
    lemma_forest_size_singleton(f.last());
}

/// Every tree has at least its root as a node.
pub proof fn lemma_tree_size_pos(t: FsTree)
    ensures
        tree_size(t) >= 1,
{
}

/// The traversal engine on a modeled tree, working the frontier off
/// depth-first: an explicit frontier holds the nodes discovered but not yet
/// worked off; a file node is counted, a directory node is replaced by its
/// entries. The result equals the sum over all reachable regular files — the
/// same sum that `count_tree_breadth_first` reaches in the opposite order.
pub fn count_tree(t: FsTree) -> (r: usize)
    requires
        tree_newlines(t) <= usize::MAX,
    ensures
        r == tree_newlines(t),
{
    let ghost whole = t;
    let mut frontier: Vec<FsTree> = Vec::new();
    frontier.push(t);
    let mut acc: usize = 0;
    proof {
        lemma_forest_newlines_singleton(whole);
        assert(frontier@ =~= seq![whole]);
    }
    while frontier.len() != 0
        invariant
            acc + forest_newlines(frontier@) == tree_newlines(whole),
            tree_newlines(whole) <= usize::MAX,
        decreases forest_size(frontier@),
    {
        let ghost before = frontier@;
        proof {
            lemma_forest_newlines_drop_last(before);
            lemma_forest_size_drop_last(before);
            lemma_tree_size_pos(before.last());
        }
        let node = frontier.pop().unwrap();
        assert(frontier@ =~= before.drop_last());
        match node {
            FsTree::File(content) => {
                let n = count_chunk(content.as_slice());
                assert(acc + n <= tree_newlines(whole));
                acc = acc + n;
            },
            FsTree::Directory(mut children) => {
                proof {
                    lemma_forest_newlines_concat(before.drop_last(), children@);
                    lemma_forest_size_concat(before.drop_last(), children@);
                }
                frontier.append(&mut children);
            },
        }
    }
    acc
}

/// The same traversal working the frontier off breadth-first: level by level
/// rather than branch by branch. Its contract is the one of `count_tree`, so
/// the total a traversal reaches does not depend on the traversal order.
pub fn count_tree_breadth_first(t: FsTree) -> (r: usize)
    requires
        tree_newlines(t) <= usize::MAX,
    ensures
        r == tree_newlines(t),
{
    let ghost whole = t;
    let mut frontier: Vec<FsTree> = Vec::new();
    frontier.push(t);
    let mut acc: usize = 0;
    proof {
        lemma_forest_newlines_singleton(whole);
        assert(frontier@ =~= seq![whole]);
    }
    while frontier.len() != 0
        invariant
            acc + forest_newlines(frontier@) == tree_newlines(whole),
            tree_newlines(whole) <= usize::MAX,
        decreases forest_size(frontier@),
    {
        let ghost before = frontier@;
        proof {
            lemma_tree_size_pos(before[0]);
            assert(forest_newlines(before) == tree_newlines(before[0]) + forest_newlines(
                before.subrange(1, before.len() as int),
            ));
            assert(forest_size(before) == tree_size(before[0]) + forest_size(
                before.subrange(1, before.len() as int),
            ));
        }
        let node = frontier.remove(0);
        proof {
            assert(frontier@ =~= before.subrange(1, before.len() as int));
        }
        match node {
            FsTree::File(content) => {
                let n = count_chunk(content.as_slice());
                assert(acc + n <= tree_newlines(whole));
                acc = acc + n;
            },
            FsTree::Directory(mut children) => {
                proof {
                    lemma_forest_newlines_concat(before.subrange(1, before.len() as int), children@);
                    lemma_forest_size_concat(before.subrange(1, before.len() as int), children@);
                }
                frontier.append(&mut children);
            },
        }
    }
    acc
}

} // verus!
