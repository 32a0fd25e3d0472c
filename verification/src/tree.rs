//! The tree: nested levels of nodes, addressed by paths of indices. A node
//! holds a payload (`T`, whatever the caller keeps for an item) and the level
//! of its branches.
use vstd::prelude::*;

verus! {

/// A node of the tree and the level below it.
pub struct TreeNode<T> {
    pub item: T,
    pub branches: Vec<TreeNode<T>>,
}

/// Whether a node can be inserted along `path`: every index but the last
/// names an existing node, and the last is at most the length of its level.
pub open spec fn insert_ok<T>(level: Seq<TreeNode<T>>, path: Seq<usize>) -> bool
    decreases path.len(),
{
    if path.len() == 0 {
        true
    } else if path.len() == 1 {
        path[0] <= level.len()
    } else {
        path[0] < level.len() && insert_ok(level[path[0] as int].branches@, path.drop_first())
    }
}

/// `new` is `old` with `node` inserted along `path`: the last index of the
/// path is where it goes in its level, the ones before it lead down to that
/// level, and everything else is as it was. An empty path changes nothing.
pub open spec fn inserted<T>(
    old: Seq<TreeNode<T>>,
    new: Seq<TreeNode<T>>,
    path: Seq<usize>,
    node: TreeNode<T>,
) -> bool
    decreases path.len(),
{
    if path.len() == 0 {
        new == old
    } else if path.len() == 1 {
        new == old.insert(path[0] as int, node)
    } else {
        let k = path[0] as int;
        &&& 0 <= k < old.len()
        &&& new.len() == old.len()
        &&& forall|j: int| 0 <= j < old.len() && j != k ==> new[j] == old[j]
        &&& new[k].item == old[k].item
        &&& inserted(old[k].branches@, new[k].branches@, path.drop_first(), node)
    }
}

/// The node that `path` leads to, if it leads anywhere.
pub open spec fn node_at_path<T>(level: Seq<TreeNode<T>>, path: Seq<usize>) -> Option<TreeNode<T>>
    decreases path.len(),
{
    if path.len() == 0 || path[0] >= level.len() {
        None
    } else if path.len() == 1 {
        Some(level[path[0] as int])
    } else {
        node_at_path(level[path[0] as int].branches@, path.drop_first())
    }
}

/// Inserts `node` along `path[depth..]` into `level`.
fn insert_from<T>(level: &mut Vec<TreeNode<T>>, path: &Vec<usize>, depth: usize, node: TreeNode<T>)
    requires
        depth <= path@.len(),
        insert_ok(old(level)@, path@.skip(depth as int)),
    ensures
        inserted(old(level)@, final(level)@, path@.skip(depth as int), node),
    decreases path@.len() - depth,
{
    if depth >= path.len() {
        return ;
    }
    let index = path[depth];
    let ghost rest = path@.skip(depth as int);
    assert(rest.drop_first() =~= path@.skip(depth + 1));
    if depth + 1 == path.len() {
        level.insert(index, node);
    } else {
        let ghost before = level@;
        insert_from(&mut level[index].branches, path, depth + 1, node);
        proof {
            assert(forall|j: int| 0 <= j < before.len() && j != index ==> level@[j] == before[j]);
        }
    }
}

/// Inserts `node` into the tree along `path`: the indices before the last one
/// lead down from the top level, the last one is its place in the level
/// reached. An empty path inserts nothing.
pub fn insert_at<T>(top: &mut Vec<TreeNode<T>>, path: &Vec<usize>, node: TreeNode<T>)
    requires
        insert_ok(old(top)@, path@),
    ensures
        inserted(old(top)@, final(top)@, path@, node),
        path@.len() > 0 ==> node_count(final(top)@) == node_count(old(top)@) + 1 + node_count(
            node.branches@,
        ),
        path@.len() == 0 ==> final(top)@ == old(top)@,
        path@.len() == 1 ==> {
            let k = path@[0] as int;
            &&& final(top)@.len() == old(top)@.len() + 1
            &&& final(top)@[k] == node
            &&& forall|j: int| 0 <= j < k ==> #[trigger] final(top)@[j] == old(top)@[j]
            &&& forall|j: int| k <= j < old(top)@.len() ==> #[trigger] final(top)@[j + 1] == old(top)@[j]
        },
{
    assert(path@.skip(0) =~= path@);
    insert_from(top, path, 0, node);
    proof {
        if path@.len() > 0 {
            lemma_insert_adds_one(old(top)@, top@, path@, node);
        }
    }
}

/// How many nodes a level holds, counting every node below it too.
pub open spec fn node_count<T>(level: Seq<TreeNode<T>>) -> nat
    decreases level,
{
    if level.len() == 0 {
        0
    } else {
        let last = level[level.len() - 1];
        node_count(level.subrange(0, level.len() - 1)) + 1 + node_count(last.branches@)
    }
}

proof fn lemma_node_count_concat<T>(a: Seq<TreeNode<T>>, b: Seq<TreeNode<T>>)
    ensures
        node_count(a + b) == node_count(a) + node_count(b),
    decreases b.len(),
{
    if b.len() == 0 {
        assert(a + b =~= a);
    } else {
        let shorter = b.subrange(0, b.len() - 1);
        lemma_node_count_concat(a, shorter);
        let ab = a + b;
        assert(ab.subrange(0, ab.len() - 1) =~= a + shorter);
        assert(ab[ab.len() - 1] == b[b.len() - 1]);
    }
}

proof fn lemma_node_count_single<T>(x: TreeNode<T>)
    ensures
        node_count(seq![x]) == 1 + node_count(x.branches@),
{
    let s = seq![x];
    assert(s.len() == 1 && s[0] == x);
    assert(s.subrange(0, 0) =~= Seq::<TreeNode<T>>::empty());
    assert(node_count(Seq::<TreeNode<T>>::empty()) == 0);
}

proof fn lemma_node_count_insert<T>(s: Seq<TreeNode<T>>, k: int, x: TreeNode<T>)
    requires
        0 <= k <= s.len(),
    ensures
        node_count(s.insert(k, x)) == node_count(s) + 1 + node_count(x.branches@),
{
    let a = s.subrange(0, k);
    let b = s.subrange(k, s.len() as int);
    assert(s.insert(k, x) =~= (a + seq![x]) + b);
    assert(s =~= a + b);
    lemma_node_count_concat(a + seq![x], b);
    lemma_node_count_concat(a, seq![x]);
    lemma_node_count_concat(a, b);
    lemma_node_count_single(x);
}

proof fn lemma_node_count_update<T>(s: Seq<TreeNode<T>>, k: int, x: TreeNode<T>)
    requires
        0 <= k < s.len(),
    ensures
        node_count(s.update(k, x)) + node_count(s[k].branches@) == node_count(s) + node_count(
            x.branches@,
        ),
{
    let a = s.subrange(0, k);
    let b = s.subrange(k + 1, s.len() as int);
    assert(s.update(k, x) =~= (a + seq![x]) + b);
    assert(s =~= (a + seq![s[k]]) + b);
    lemma_node_count_concat(a + seq![x], b);
    lemma_node_count_concat(a, seq![x]);
    lemma_node_count_concat(a + seq![s[k]], b);
    lemma_node_count_concat(a, seq![s[k]]);
    lemma_node_count_single(x);
    lemma_node_count_single(s[k]);
}

/// A law of the tree: inserting a node along a path adds exactly that node
/// and the nodes below it, and loses none.
pub proof fn lemma_insert_adds_one<T>(
    old: Seq<TreeNode<T>>,
    new: Seq<TreeNode<T>>,
    path: Seq<usize>,
    node: TreeNode<T>,
)
    requires
        path.len() > 0,
        insert_ok(old, path),
        inserted(old, new, path, node),
    ensures
        node_count(new) == node_count(old) + 1 + node_count(node.branches@),
    decreases path.len(),
{
    if path.len() == 1 {
        lemma_node_count_insert(old, path[0] as int, node);
    } else {
        let k = path[0] as int;
        lemma_insert_adds_one(old[k].branches@, new[k].branches@, path.drop_first(), node);
        assert(new =~= old.update(k, new[k]));
        lemma_node_count_update(old, k, new[k]);
    }
}

/// The node that `path[depth..]` leads to from `level`.
fn node_from<'a, T>(level: &'a Vec<TreeNode<T>>, path: &Vec<usize>, depth: usize) -> (r: Option<
    &'a TreeNode<T>,
>)
    requires
        depth <= path@.len(),
    ensures
        match (r, node_at_path(level@, path@.skip(depth as int))) {
            (Some(a), Some(b)) => *a == b,
            (None, None) => true,
            _ => false,
        },
    decreases path@.len() - depth,
{
    let ghost rest = path@.skip(depth as int);
    if depth >= path.len() {
        return None;
    }
    let index = path[depth];
    if index >= level.len() {
        return None;
    }
    assert(rest.drop_first() =~= path@.skip(depth + 1));
    if depth + 1 == path.len() {
        Some(&level[index])
    } else {
        node_from(&level[index].branches, path, depth + 1)
    }
}

/// The node that `path` leads to from the top level, if there is one.
pub fn node_at<'a, T>(top: &'a Vec<TreeNode<T>>, path: &Vec<usize>) -> (r: Option<&'a TreeNode<T>>)
    ensures
        match (r, node_at_path(top@, path@)) {
            (Some(a), Some(b)) => *a == b,
            (None, None) => true,
            _ => false,
        },
        path@.len() == 0 ==> r is None,
        path@.len() == 1 && path@[0] < top@.len() ==> r is Some && *r->0 == top@[path@[0] as int],
        path@.len() >= 1 && path@[0] >= top@.len() ==> r is None,
{
    assert(path@.skip(0) =~= path@);
    node_from(top, path, 0)
}

/// A law of the tree: a node inserted along a path is found along that path.
pub proof fn lemma_insert_then_find<T>(
    old: Seq<TreeNode<T>>,
    new: Seq<TreeNode<T>>,
    path: Seq<usize>,
    node: TreeNode<T>,
)
    requires
        path.len() > 0,
        insert_ok(old, path),
        inserted(old, new, path, node),
    ensures
        node_at_path(new, path) == Some(node),
    decreases path.len(),
{
    if path.len() > 1 {
        let k = path[0] as int;
        lemma_insert_then_find(old[k].branches@, new[k].branches@, path.drop_first(), node);
    }
}

/// Whether the nodes named along `path` can be removed. At each step the level
/// must not be empty; an index at or past the level's last node removes that
/// node, which must then be the last one, and the rest of the path carries on
/// in the same level; an index before it leads down into that node's branches.
pub open spec fn remove_ok<T>(level: Seq<TreeNode<T>>, path: Seq<usize>) -> bool
    decreases path.len(),
{
    if path.len() == 0 {
        true
    } else {
        let k = path[0] as int;
        &&& level.len() >= 1
        &&& if k >= level.len() - 1 {
            k < level.len() && remove_ok(level.remove(k), path.drop_first())
        } else {
            remove_ok(level[k].branches@, path.drop_first())
        }
    }
}

/// `new` is `old` once the steps of `path` have been taken (see `remove_ok`).
pub open spec fn removed_along<T>(old: Seq<TreeNode<T>>, new: Seq<TreeNode<T>>, path: Seq<usize>) -> bool
    decreases path.len(),
{
    if path.len() == 0 {
        new == old
    } else {
        let k = path[0] as int;
        if k >= old.len() - 1 {
            removed_along(old.remove(k), new, path.drop_first())
        } else {
            &&& new.len() == old.len()
            &&& forall|j: int| 0 <= j < old.len() && j != k ==> new[j] == old[j]
            &&& new[k].item == old[k].item
            &&& removed_along(old[k].branches@, new[k].branches@, path.drop_first())
        }
    }
}

/// A node taken out of the tree, with the step of the path that took it
/// out and whether it was on the top level.
pub struct Removal<T> {
    pub step: usize,
    pub top_level: bool,
    pub node: TreeNode<T>,
}

/// The removals that the steps of `path` from step `step` on make, in order.
pub open spec fn removals<T>(level: Seq<TreeNode<T>>, path: Seq<usize>, step: int, top: bool) -> Seq<
    (int, bool, TreeNode<T>),
>
    decreases path.len(),
{
    if path.len() == 0 {
        Seq::empty()
    } else {
        let k = path[0] as int;
        if k >= level.len() - 1 {
            seq![(step, top, level[k])] + removals(level.remove(k), path.drop_first(), step + 1, top)
        } else {
            removals(level[k].branches@, path.drop_first(), step + 1, false)
        }
    }
}

/// Takes the steps of `path[depth..]` in `level`, collecting what is removed.
fn remove_from<T>(
    level: &mut Vec<TreeNode<T>>,
    path: &Vec<usize>,
    depth: usize,
    top: bool,
    out: &mut Vec<Removal<T>>,
)
    requires
        depth <= path@.len(),
        remove_ok(old(level)@, path@.skip(depth as int)),
    ensures
        removed_along(old(level)@, final(level)@, path@.skip(depth as int)),
        final(out)@.len() == old(out)@.len() + removals(
            old(level)@,
            path@.skip(depth as int),
            depth as int,
            top,
        ).len(),
        forall|i: int| 0 <= i < old(out)@.len() ==> #[trigger] final(out)@[i] == old(out)@[i],
        forall|i: int|
            0 <= i < removals(old(level)@, path@.skip(depth as int), depth as int, top).len() ==> {
                let e = removals(old(level)@, path@.skip(depth as int), depth as int, top)[i];
                let o = #[trigger] final(out)@[old(out)@.len() + i];
                o.step == e.0 && o.top_level == e.1 && o.node == e.2
            },
    decreases path@.len() - depth,
{
    if depth >= path.len() {
        return ;
    }
    let index = path[depth];
    let ghost rest = path@.skip(depth as int);
    assert(rest.drop_first() =~= path@.skip(depth + 1));
    if index >= level.len() - 1 {
        let node = level.remove(index);
        let ghost out_before = out@;
        out.push(Removal { step: depth, top_level: top, node });
        remove_from(level, path, depth + 1, top, out);
        proof {
            let tail = removals(old(level)@.remove(index as int), path@.skip(depth + 1), depth + 1, top);
            let all = removals(old(level)@, rest, depth as int, top);
            assert(all =~= seq![(depth as int, top, old(level)@[index as int])] + tail);
            assert forall|i: int| 0 <= i < all.len() implies {
                let e = all[i];
                let o = #[trigger] out@[old(out)@.len() + i];
                o.step == e.0 && o.top_level == e.1 && o.node == e.2
            } by {
                if i > 0 {
                    assert(all[i] == tail[i - 1]);
                    assert(out@[old(out)@.len() + i] == out@[(old(out)@.len() + 1) + (i - 1)]);
                } else {
                    assert(out@[old(out)@.len() as int] == out_before.push(
                        Removal { step: depth, top_level: top, node },
                    )[old(out)@.len() as int]);
                }
            }
        }
    } else {
        let ghost before = level@;
        remove_from(&mut level[index].branches, path, depth + 1, false, out);
        proof {
            assert(forall|j: int| 0 <= j < before.len() && j != index ==> level@[j] == before[j]);
        }
    }
}

/// Removes nodes from the tree along `path` (see `remove_ok` for how the path
/// is read) and hands back what was removed, in order.
pub fn remove_at<T>(top: &mut Vec<TreeNode<T>>, path: &Vec<usize>) -> (r: Vec<Removal<T>>)
    requires
        remove_ok(old(top)@, path@),
    ensures
        removed_along(old(top)@, final(top)@, path@),
        r@.len() == removals(old(top)@, path@, 0, true).len(),
        forall|i: int|
            0 <= i < r@.len() ==> {
                let e = removals(old(top)@, path@, 0, true)[i];
                let o = #[trigger] r@[i];
                o.step == e.0 && o.top_level == e.1 && o.node == e.2
            },
        path@.len() == 0 ==> final(top)@ == old(top)@ && r@.len() == 0,
        path@.len() == 1 && path@[0] == old(top)@.len() - 1 ==> {
            &&& final(top)@ == old(top)@.drop_last()
            &&& r@.len() == 1
            &&& r@[0].node == old(top)@.last()
            &&& r@[0].step == 0
            &&& r@[0].top_level
        },
        path@.len() == 1 && path@[0] < old(top)@.len() - 1 ==> {
            &&& r@.len() == 0
            &&& final(top)@.len() == old(top)@.len()
            &&& forall|j: int| 0 <= j < old(top)@.len() ==> (#[trigger] final(top)@[j]).item == old(
                top,
            )@[j].item && final(top)@[j].branches@ == old(top)@[j].branches@
        },
        node_count(final(top)@) + removed_count(removals(old(top)@, path@, 0, true)) == node_count(
            old(top)@,
        ),
{

    assert(path@.skip(0) =~= path@);
    let mut out: Vec<Removal<T>> = Vec::new();
    remove_from(top, path, 0, true, &mut out);
    assert forall|i: int| 0 <= i < out@.len() implies {
        let e = removals(old(top)@, path@, 0, true)[i];
        let o = #[trigger] out@[i];
        o.step == e.0 && o.top_level == e.1 && o.node == e.2
    } by {
        assert(out@[0 + i] == out@[i]);
    }
    proof {
        lemma_remove_keeps_the_rest(old(top)@, top@, path@, 0, true);
        if path@.len() == 1 {
            let k = path@[0] as int;
            assert(path@.drop_first() =~= Seq::<usize>::empty());
            if k == old(top)@.len() - 1 {
                assert(old(top)@.remove(k) =~= old(top)@.drop_last());
                assert(removals(old(top)@.remove(k), path@.drop_first(), 1, true) =~= Seq::<
                    (int, bool, TreeNode<T>),
                >::empty());
                assert(removals(old(top)@, path@, 0, true) =~= seq![(0int, true, old(top)@[k])]);
                lemma_removed_along_last(old(top)@, top@, path@);
                assert(top@ == old(top)@.drop_last());
                assert(out@[0].node == old(top)@.last());
            } else if k < old(top)@.len() - 1 {
                lemma_removed_along_descends(old(top)@, top@, path@);
                assert(top@[k].branches@ == old(top)@[k].branches@);
                assert(removals(old(top)@[k].branches@, path@.drop_first(), 1, false) =~= Seq::<
                    (int, bool, TreeNode<T>),
                >::empty());
                assert(removals(old(top)@, path@, 0, true) =~= Seq::<(int, bool, TreeNode<T>)>::empty());
            }
        }
    }
    out
}

/// How many nodes the removals take out, counting the nodes below each.
pub open spec fn removed_count<T>(removed: Seq<(int, bool, TreeNode<T>)>) -> nat
    decreases removed.len(),
{
    if removed.len() == 0 {
        0
    } else {
        removed_count(removed.drop_last()) + 1 + node_count(removed.last().2.branches@)
    }
}

proof fn lemma_removed_count_concat<T>(a: Seq<(int, bool, TreeNode<T>)>, b: Seq<(int, bool, TreeNode<T>)>)
    ensures
        removed_count(a + b) == removed_count(a) + removed_count(b),
    decreases b.len(),
{
    if b.len() == 0 {
        assert(a + b =~= a);
    } else {
        lemma_removed_count_concat(a, b.drop_last());
        assert((a + b).drop_last() =~= a + b.drop_last());
    }
}

/// A law of removing along a path: every node is either still in the tree or
/// among the removed nodes (with the nodes below them), and none is counted
/// twice.
pub proof fn lemma_remove_keeps_the_rest<T>(
    old: Seq<TreeNode<T>>,
    new: Seq<TreeNode<T>>,
    path: Seq<usize>,
    step: int,
    top: bool,
)
    requires
        remove_ok(old, path),
        removed_along(old, new, path),
    ensures
        node_count(new) + removed_count(removals(old, path, step, top)) == node_count(old),
    decreases path.len(),
{
    if path.len() > 0 {
        let k = path[0] as int;
        if k >= old.len() - 1 {
            lemma_remove_keeps_the_rest(old.remove(k), new, path.drop_first(), step + 1, top);
            let head = seq![(step, top, old[k])];
            let tail = removals(old.remove(k), path.drop_first(), step + 1, top);
            lemma_removed_count_concat(head, tail);
            assert(head.drop_last() =~= Seq::<(int, bool, TreeNode<T>)>::empty());
            assert(removed_count(Seq::<(int, bool, TreeNode<T>)>::empty()) == 0);
            assert(head.last().2 == old[k]);
            assert(removed_count(head) == 1 + node_count(old[k].branches@));
            assert(removals(old, path, step, top) == head + tail);
            let a = old.subrange(0, k);
            let b = old.subrange(k + 1, old.len() as int);
            assert(old.remove(k) =~= a + b);
            assert(old =~= (a + seq![old[k]]) + b);
            lemma_node_count_concat(a, b);
            lemma_node_count_concat(a + seq![old[k]], b);
            lemma_node_count_concat(a, seq![old[k]]);
            lemma_node_count_single(old[k]);
        } else {
            lemma_remove_keeps_the_rest(
                old[k].branches@,
                new[k].branches@,
                path.drop_first(),
                step + 1,
                false,
            );
            assert(new =~= old.update(k, new[k]));
            lemma_node_count_update(old, k, new[k]);
        }
    }
}

/// The payloads of the tree in depth-first order: each node before its
/// branches.
pub open spec fn preorder<T>(level: Seq<TreeNode<T>>) -> Seq<T>
    decreases level,
{
    if level.len() == 0 {
        Seq::empty()
    } else {
        let last = level[level.len() - 1];
        preorder(level.subrange(0, level.len() - 1)) + seq![last.item] + preorder(last.branches@)
    }
}

/// Lists the payloads of the tree in depth-first order.
pub fn items_in_order<'a, T>(level: &'a Vec<TreeNode<T>>) -> (r: Vec<&'a T>)
    ensures
        r@.len() == preorder(level@).len(),
        forall|i: int| 0 <= i < r@.len() ==> *(#[trigger] r@[i]) == preorder(level@)[i],
    decreases level@,
{
    let mut out: Vec<&'a T> = Vec::new();
    let mut i: usize = 0;
    while i < level.len()
        invariant
            i <= level@.len(),
            out@.len() == preorder(level@.subrange(0, i as int)).len(),
            forall|j: int|
                0 <= j < out@.len() ==> *(#[trigger] out@[j]) == preorder(
                    level@.subrange(0, i as int),
                )[j],
        decreases level@.len() - i,
    {
        let node = &level[i];
        proof {
            let next = level@.subrange(0, i + 1);
            assert(next.subrange(0, i as int) =~= level@.subrange(0, i as int));
            assert(next[i as int] == *node);
        }
        let ghost before = out@;
        out.push(&node.item);
        let below = items_in_order(&node.branches);
        let mut j: usize = 0;
        while j < below.len()
            invariant
                j <= below@.len(),
                out@.len() == before.len() + 1 + j,
                forall|k: int| 0 <= k < before.len() ==> #[trigger] out@[k] == before[k],
                out@[before.len() as int] == &node.item,
                forall|k: int| 0 <= k < j ==> #[trigger] out@[before.len() + 1 + k] == below@[k],
            decreases below@.len() - j,
        {
            out.push(below[j]);
            j = j + 1;
        }
        proof {
            let next = level@.subrange(0, i + 1);
            let want = preorder(next);
            assert(want =~= preorder(level@.subrange(0, i as int)) + seq![node.item] + preorder(
                node.branches@,
            ));
            assert forall|k: int| 0 <= k < out@.len() implies *(#[trigger] out@[k]) == want[k] by {
                if k < before.len() {
                } else if k == before.len() {
                } else {
                    assert(out@[k] == out@[before.len() + 1 + (k - before.len() - 1)]);
                }
            }
        }
        i = i + 1;
    }
    assert(level@.subrange(0, level@.len() as int) =~= level@);
    out
}

/// The sum of a sequence of heights.
pub open spec fn sum_of(heights: Seq<u16>) -> int
    decreases heights.len(),
{
    if heights.len() == 0 {
        0
    } else {
        sum_of(heights.subrange(0, heights.len() - 1)) + heights[heights.len() - 1]
    }
}

proof fn lemma_sum_grows(heights: Seq<u16>, i: int)
    requires
        0 <= i <= heights.len(),
    ensures
        0 <= sum_of(heights.subrange(0, i)) <= sum_of(heights),
    decreases heights.len(),
{
    if i == heights.len() {
        assert(heights.subrange(0, i) =~= heights);
        if heights.len() > 0 {
            lemma_sum_grows(heights.subrange(0, heights.len() - 1), heights.len() - 1);
            assert(heights.subrange(0, heights.len() - 1).subrange(0, heights.len() - 1) =~= heights.subrange(0, heights.len() - 1));
        }
    } else {
        let shorter = heights.subrange(0, heights.len() - 1);
        lemma_sum_grows(shorter, i);
        assert(shorter.subrange(0, i) =~= heights.subrange(0, i));
        lemma_sum_grows(shorter, shorter.len() as int);
        assert(shorter.subrange(0, shorter.len() as int) =~= shorter);
    }
}

/// Adds up the heights of the tree's items, which is where the next item goes.
pub fn total_height(heights: &Vec<u16>) -> (r: i32)
    requires
        sum_of(heights@) <= i32::MAX,
    ensures
        r == sum_of(heights@),
{
    let mut y: i32 = 0;
    let mut i: usize = 0;
    while i < heights.len()
        invariant
            i <= heights.len(),
            y == sum_of(heights@.subrange(0, i as int)),
            sum_of(heights@) <= i32::MAX,
        decreases heights.len() - i,
    {
        proof {
            lemma_sum_grows(heights@, i + 1);
            let next = heights@.subrange(0, i + 1);
            assert(next.subrange(0, i as int) =~= heights@.subrange(0, i as int));
        }
        y = y + heights[i] as i32;
        i = i + 1;
    }
    assert(heights@.subrange(0, heights.len() as int) =~= heights@);
    y
}

fn insert_ok_from<T>(level: &Vec<TreeNode<T>>, path: &Vec<usize>, depth: usize) -> (r: bool)
    requires
        depth <= path@.len(),
    ensures
        r == insert_ok(level@, path@.skip(depth as int)),
    decreases path@.len() - depth,
{
    if depth >= path.len() {
        return true;
    }
    let ghost rest = path@.skip(depth as int);
    assert(rest.drop_first() =~= path@.skip(depth + 1));
    let index = path[depth];
    if depth + 1 == path.len() {
        index <= level.len()
    } else {
        index < level.len() && insert_ok_from(&level[index].branches, path, depth + 1)
    }
}

/// Tells whether a node can be inserted along `path`, which `insert_at` needs.
pub fn insert_path_ok<T>(top: &Vec<TreeNode<T>>, path: &Vec<usize>) -> (r: bool)
    ensures
        r == insert_ok(top@, path@),
{
    assert(path@.skip(0) =~= path@);
    insert_ok_from(top, path, 0)
}

fn remove_ok_from<T>(level: &Vec<TreeNode<T>>, len: usize, path: &Vec<usize>, depth: usize) -> (r: bool)
    requires
        depth <= path@.len(),
        len <= level@.len(),
    ensures
        r == remove_ok(level@.subrange(0, len as int), path@.skip(depth as int)),
    decreases path@.len() - depth, len,
{
    let ghost here = level@.subrange(0, len as int);
    if depth >= path.len() {
        return true;
    }
    let ghost rest = path@.skip(depth as int);
    assert(rest.drop_first() =~= path@.skip(depth + 1));
    if len < 1 {
        return false;
    }
    let index = path[depth];
    if index >= len - 1 {
        if index >= len {
            return false;
        }
        assert(here.remove(index as int) =~= level@.subrange(0, len - 1));
        remove_ok_from(level, len - 1, path, depth + 1)
    } else {
        let below = &level[index].branches;
        assert(below@.subrange(0, below@.len() as int) =~= below@);
        remove_ok_from(below, below.len(), path, depth + 1)
    }
}

/// Tells whether the steps of `path` can be taken, which `remove_at` needs.
pub fn remove_path_ok<T>(top: &Vec<TreeNode<T>>, path: &Vec<usize>) -> (r: bool)
    ensures
        r == remove_ok(top@, path@),
{
    assert(path@.skip(0) =~= path@);
    assert(top@.subrange(0, top@.len() as int) =~= top@);
    remove_ok_from(top, top.len(), path, 0)
}

/// Tells whether the heights add up to an `i32`, which `total_height` needs.
pub fn heights_fit(heights: &Vec<u16>) -> (r: bool)
    ensures
        r == (sum_of(heights@) <= i32::MAX),
{
    let mut acc: u64 = 0;
    let mut i: usize = 0;
    while i < heights.len()
        invariant
            i <= heights.len(),
            acc == sum_of(heights@.subrange(0, i as int)),
            acc <= i32::MAX,
        decreases heights.len() - i,
    {
        proof {
            let next = heights@.subrange(0, i + 1);
            assert(next.subrange(0, i as int) =~= heights@.subrange(0, i as int));
        }
        let next: u64 = acc + heights[i] as u64;
        if next > 2147483647 {
            proof {
                lemma_sum_grows(heights@, i + 1);
            }
            return false;
        }
        acc = next;
        i = i + 1;
    }
    assert(heights@.subrange(0, heights.len() as int) =~= heights@);
    true
}

proof fn lemma_removed_along_last<T>(old: Seq<TreeNode<T>>, new: Seq<TreeNode<T>>, path: Seq<usize>)
    requires
        removed_along(old, new, path),
        path.len() == 1,
        old.len() >= 1,
        (path[0] as int) == old.len() - 1,
    ensures
        new == old.drop_last(),
{
    assert(path.drop_first() =~= Seq::<usize>::empty());
    assert(removed_along(old.remove(path[0] as int), new, path.drop_first()));
    assert(old.remove(path[0] as int) =~= old.drop_last());
}

proof fn lemma_removed_along_descends<T>(old: Seq<TreeNode<T>>, new: Seq<TreeNode<T>>, path: Seq<usize>)
    requires
        removed_along(old, new, path),
        path.len() == 1,
        (path[0] as int) < old.len() - 1,
    ensures
        removed_along(old[path[0] as int].branches@, new[path[0] as int].branches@, path.drop_first()),
{
}

} // verus!
