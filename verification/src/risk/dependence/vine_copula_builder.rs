//! The tree structure of C-vine and D-vine copulas.
//!
//! A vine decomposes a multivariate dependence into a cascade of trees of
//! pair copulas. Which pairs appear, and on which variables each pair is
//! conditioned, depends only on the ordering of the variables; the pair
//! parameters are computed afterwards from the correlations.

use vstd::prelude::*;

verus! {

/// Type of vine structure.
#[derive(Debug, Clone, Copy, PartialEq, Eq, Structural)]
pub enum VineType {
    /// Canonical vine: a central node in each tree.
    CVine,
    /// Drawable vine: a path structure.
    DVine,
    /// Regular vine: the most general structure.
    RVine,
}

/// A pair of variables in a vine tree and the variables it is conditioned
/// on.
#[derive(Debug, PartialEq, Eq)]
pub struct VineEdge {
    pub var1: usize,
    pub var2: usize,
    pub conditioning_set: Vec<usize>,
}

/// One tree of a vine: its level (counting from 1) and its edges.
#[derive(Debug, PartialEq, Eq)]
pub struct VineLevel {
    pub level: usize,
    pub edges: Vec<VineEdge>,
}

/// The abstract value of a [`VineEdge`].
pub struct EdgeView {
    pub var1: usize,
    pub var2: usize,
    pub conditioning_set: Seq<usize>,
}

/// The abstract value of a [`VineLevel`].
pub struct LevelView {
    pub level: usize,
    pub edges: Seq<EdgeView>,
}

impl View for VineEdge {
    type V = EdgeView;

    open spec fn view(&self) -> EdgeView {
        EdgeView { var1: self.var1, var2: self.var2, conditioning_set: self.conditioning_set@ }
    }
}

/// The abstract values of a sequence of edges.
pub open spec fn edges_view(edges: Seq<VineEdge>) -> Seq<EdgeView> {
    edges.map_values(|e: VineEdge| e@)
}

impl View for VineLevel {
    type V = LevelView;

    open spec fn view(&self) -> LevelView {
        LevelView { level: self.level, edges: edges_view(self.edges@) }
    }
}

/// The abstract values of a sequence of trees.
pub open spec fn levels_view(levels: Seq<VineLevel>) -> Seq<LevelView> {
    levels.map_values(|l: VineLevel| l@)
}

/// The variables an edge touches: its conditioning set, then its two
/// variables.
pub open spec fn edge_nodes(e: EdgeView) -> Seq<usize> {
    e.conditioning_set.push(e.var1).push(e.var2)
}

/// `s` without the occurrences of `a` and `b`, in order.
pub open spec fn without_pair(s: Seq<usize>, a: usize, b: usize) -> Seq<usize>
    decreases s.len(),
{
    if s.len() == 0 {
        Seq::empty()
    } else {
        let r = without_pair(s.drop_last(), a, b);
        if s.last() != a && s.last() != b {
            r.push(s.last())
        } else {
            r
        }
    }
}

/// The trees of a vine: the first tree, then each next tree built from the
/// one before by `next`, for the levels 2 up to `last_level`. A level with
/// no edge is left out. `None` where a level's predecessor is missing.
pub open spec fn vine_trees(
    first: Seq<EdgeView>,
    next: spec_fn(Seq<EdgeView>, int) -> Seq<EdgeView>,
    last_level: nat,
) -> Option<Seq<LevelView>>
    decreases last_level,
{
    if last_level <= 1 {
        Some(seq![LevelView { level: 1, edges: first }])
    } else {
        match vine_trees(first, next, (last_level - 1) as nat) {
            None => None,
            Some(t) => if t.len() < last_level - 1 {
                None
            } else {
                let e = next(t[last_level - 2].edges, last_level as int);
                if e.len() > 0 {
                    Some(t.push(LevelView { level: last_level as usize, edges: e }))
                } else {
                    Some(t)
                }
            },
        }
    }
}

/// The last level built for `n` variables.
pub open spec fn last_level(n: nat) -> nat {
    if n >= 2 { (n - 1) as nat } else { 1 }
}

// ---------------------------------------------------------------- C-vine

/// The first C-vine tree: a star joining the first variable of the order
/// to each other one.
pub open spec fn c_vine_first_tree(order: Seq<usize>) -> Seq<EdgeView> {
    Seq::new(
        (order.len() - 1) as nat,
        |i: int| EdgeView { var1: order[0], var2: order[i + 1], conditioning_set: Seq::empty() },
    )
}

/// How many of `ej`'s two variables `ei` touches.
pub open spec fn shared_count(ei: EdgeView, ej: EdgeView) -> int {
    (if edge_nodes(ei).contains(ej.var1) { 1int } else { 0int }) + (if edge_nodes(ei).contains(
        ej.var2,
    ) {
        1int
    } else {
        0int
    })
}

/// The C-vine edge that joins `ei` to `ej`.
pub open spec fn c_vine_link(ei: EdgeView, ej: EdgeView) -> EdgeView {
    EdgeView {
        var1: ei.var1,
        var2: ej.var1,
        conditioning_set: without_pair(edge_nodes(ei), ej.var1, ej.var2),
    }
}

/// The edges from the pairs `(i, j)`, `i < j < j_end`, of `prev` that share
/// `level - 1` variables.
pub open spec fn c_vine_row(prev: Seq<EdgeView>, level: int, i: int, j_end: int) -> Seq<EdgeView>
    decreases j_end - i,
{
    if j_end <= i + 1 {
        Seq::empty()
    } else {
        let r = c_vine_row(prev, level, i, j_end - 1);
        if shared_count(prev[i], prev[j_end - 1]) == level - 1 {
            r.push(c_vine_link(prev[i], prev[j_end - 1]))
        } else {
            r
        }
    }
}

/// The rows of the pairs whose first index lies below `i_end`.
pub open spec fn c_vine_rows(prev: Seq<EdgeView>, level: int, i_end: int) -> Seq<EdgeView>
    decreases i_end,
{
    if i_end <= 0 {
        Seq::empty()
    } else {
        c_vine_rows(prev, level, i_end - 1) + c_vine_row(prev, level, i_end - 1, prev.len() as int)
    }
}

/// The C-vine tree at `level` built from the tree before it.
pub open spec fn c_vine_next(prev: Seq<EdgeView>, level: int) -> Seq<EdgeView> {
    c_vine_rows(prev, level, prev.len() as int)
}

/// The step from one C-vine tree to the next.
pub open spec fn c_vine_step() -> spec_fn(Seq<EdgeView>, int) -> Seq<EdgeView> {
    |prev: Seq<EdgeView>, level: int| c_vine_next(prev, level)
}

/// The C-vine for a variable order; `None` for an empty order or where a
/// level's predecessor is missing.
pub open spec fn c_vine_spec(order: Seq<usize>) -> Option<Seq<LevelView>> {
    if order.len() == 0 {
        None
    } else {
        vine_trees(c_vine_first_tree(order), c_vine_step(), last_level(order.len()))
    }
}

// ---------------------------------------------------------------- D-vine

/// The first D-vine tree: the path through the order.
pub open spec fn d_vine_first_tree(order: Seq<usize>) -> Seq<EdgeView> {
    Seq::new(
        (order.len() - 1) as nat,
        |i: int| EdgeView { var1: order[i], var2: order[i + 1], conditioning_set: Seq::empty() },
    )
}

/// The D-vine edge that joins two consecutive edges: the variable of each
/// that the other does not hold (its second variable where both are held).
pub open spec fn d_vine_link(ei: EdgeView, ej: EdgeView) -> EdgeView {
    let v1 = if ei.var1 != ej.var1 && ei.var1 != ej.var2 { ei.var1 } else { ei.var2 };
    let v2 = if ej.var1 != ei.var1 && ej.var1 != ei.var2 { ej.var1 } else { ej.var2 };
    EdgeView { var1: v1, var2: v2, conditioning_set: without_pair(edge_nodes(ei), v1, v2) }
}

/// The D-vine tree built from the tree before it: one edge per pair of
/// consecutive edges.
pub open spec fn d_vine_next(prev: Seq<EdgeView>) -> Seq<EdgeView> {
    Seq::new(
        if prev.len() >= 1 { (prev.len() - 1) as nat } else { 0 },
        |i: int| d_vine_link(prev[i], prev[i + 1]),
    )
}

/// The step from one D-vine tree to the next.
pub open spec fn d_vine_step() -> spec_fn(Seq<EdgeView>, int) -> Seq<EdgeView> {
    |prev: Seq<EdgeView>, level: int| d_vine_next(prev)
}

/// The D-vine for a variable order; `None` for an empty order or where a
/// level's predecessor is missing.
pub open spec fn d_vine_spec(order: Seq<usize>) -> Option<Seq<LevelView>> {
    if order.len() == 0 {
        None
    } else {
        vine_trees(d_vine_first_tree(order), d_vine_step(), last_level(order.len()))
    }
}

// ---------------------------------------------------------------- building

/// The variables `e` touches, without `a` and `b`.
fn nodes_without(e: &VineEdge, a: usize, b: usize) -> (r: Vec<usize>)
    ensures
        r@ == without_pair(edge_nodes(e@), a, b),
{
    let mut r: Vec<usize> = Vec::new();
    let n = e.conditioning_set.len();
    let mut i: usize = 0;
    while i < n
        invariant
            i <= n,
            n == e.conditioning_set@.len(),
            r@ == without_pair(e.conditioning_set@.subrange(0, i as int), a, b),
        decreases n - i,
    {
        let x = e.conditioning_set[i];
        proof {
            let s = e.conditioning_set@.subrange(0, i as int + 1);
            assert(s.drop_last() =~= e.conditioning_set@.subrange(0, i as int));
        }
        if x != a && x != b {
            r.push(x);
        }
        i = i + 1;
    }
    let ghost c = e.conditioning_set@;
    proof {
        assert(c.subrange(0, n as int) =~= c);
        assert(c.push(e.var1).drop_last() =~= c);
    }
    if e.var1 != a && e.var1 != b {
        r.push(e.var1);
    }
    assert(r@ == without_pair(c.push(e.var1), a, b));
    proof {
        assert(c.push(e.var1).push(e.var2).drop_last() =~= c.push(e.var1));
    }
    if e.var2 != a && e.var2 != b {
        r.push(e.var2);
    }
    assert(r@ == without_pair(c.push(e.var1).push(e.var2), a, b));
    r
}

/// Whether `e` touches the variable `x`.
fn edge_touches(e: &VineEdge, x: usize) -> (r: bool)
    ensures
        r == edge_nodes(e@).contains(x),
{
    let n = e.conditioning_set.len();
    let mut i: usize = 0;
    while i < n
        invariant
            i <= n,
            n == e.conditioning_set@.len(),
            forall|k: int| 0 <= k < i ==> e.conditioning_set@[k] != x,
        decreases n - i,
    {
        if e.conditioning_set[i] == x {
            proof {
                assert(edge_nodes(e@)[i as int] == x);
            }
            return true;
        }
        i = i + 1;
    }
    let ghost nodes = edge_nodes(e@);
    if e.var1 == x {
        assert(nodes[n as int] == x);
        return true;
    }
    if e.var2 == x {
        assert(nodes[n as int + 1] == x);
        return true;
    }
    proof {
        assert forall|k: int| 0 <= k < nodes.len() implies nodes[k] != x by {
            if k < n {
                assert(nodes[k] == e.conditioning_set@[k]);
            }
        }
    }
    false
}

/// The C-vine tree at `level` built from `prev`.
fn c_vine_next_level(prev: &Vec<VineEdge>, level: usize) -> (r: Vec<VineEdge>)
    requires
        level >= 2,
    ensures
        edges_view(r@) == c_vine_next(edges_view(prev@), level as int),
{
    let ghost pv = edges_view(prev@);
    let len = prev.len();
    let mut out: Vec<VineEdge> = Vec::new();
    let mut i: usize = 0;
    while i < len
        invariant
            i <= len,
            len == prev@.len(),
            level >= 2,
            pv == edges_view(prev@),
            edges_view(out@) == c_vine_rows(pv, level as int, i as int),
        decreases len - i,
    {
        let ghost base = edges_view(out@);
        let mut j: usize = i + 1;
        while j < len
            invariant
                i < len,
                i + 1 <= j <= len,
                len == prev@.len(),
                level >= 2,
                pv == edges_view(prev@),
                edges_view(out@) == base + c_vine_row(pv, level as int, i as int, j as int),
            decreases len - j,
        {
            let ei = &prev[i];
            let ej = &prev[j];
            let mut shared: usize = 0;
            if edge_touches(ei, ej.var1) {
                shared = shared + 1;
            }
            if edge_touches(ei, ej.var2) {
                shared = shared + 1;
            }
            proof {
                assert(pv[i as int] == ei@);
                assert(pv[j as int] == ej@);
            }
            if shared == level - 1 {
                let edge = VineEdge {
                    var1: ei.var1,
                    var2: ej.var1,
                    conditioning_set: nodes_without(ei, ej.var1, ej.var2),
                };
                let ghost before = out@;
                out.push(edge);
                proof {
                    assert(edges_view(out@) =~= edges_view(before).push(edge@));
                    assert(edge@ == c_vine_link(pv[i as int], pv[j as int]));
                }
            }
            proof {
                let row = c_vine_row(pv, level as int, i as int, j as int + 1);
                assert(base + row =~= edges_view(out@)) by {
                    if shared_count(pv[i as int], pv[j as int]) == level - 1 {
                        assert(row == c_vine_row(pv, level as int, i as int, j as int).push(
                            c_vine_link(pv[i as int], pv[j as int]),
                        ));
                    }
                }
            }
            j = j + 1;
        }
        i = i + 1;
    }
    out
}

/// Once a level's predecessor is missing, every later level is missing too.
proof fn lemma_vine_trees_none_stays(
    first: Seq<EdgeView>,
    next: spec_fn(Seq<EdgeView>, int) -> Seq<EdgeView>,
    a: nat,
    b: nat,
)
    requires
        a <= b,
        vine_trees(first, next, a) is None,
    ensures
        vine_trees(first, next, b) is None,
    decreases b - a,
{
    if a < b {
        lemma_vine_trees_none_stays(first, next, a, (b - 1) as nat);
    }
}

/// One step of the tree loop: the trees up to `level`, from those up to
/// `level - 1` and the edges built at `level`.
proof fn lemma_vine_trees_step(
    first: Seq<EdgeView>,
    next: spec_fn(Seq<EdgeView>, int) -> Seq<EdgeView>,
    level: nat,
    trees: Seq<LevelView>,
    built: Seq<EdgeView>,
)
    requires
        level >= 2,
        vine_trees(first, next, (level - 1) as nat) == Some(trees),
        trees.len() >= level - 1,
        built == next(trees[level - 2].edges, level as int),
    ensures
        vine_trees(first, next, level) == Some(
            if built.len() > 0 {
                trees.push(LevelView { level: level as usize, edges: built })
            } else {
                trees
            },
        ),
{
}

/// The trees of the C-vine for the variable order `order`.
///
/// The first tree is a star joining `order[0]` to every other variable.
/// Each later tree, for the levels 2 up to `order.len() - 1`, joins every
/// pair of edges of the tree before that share `level - 1` variables; a
/// level without edges is left out. `None` for an empty order, and where a
/// level's predecessor is missing because an earlier level was left out.
pub fn c_vine_structure(order: &Vec<usize>) -> (r: Option<Vec<VineLevel>>)
    ensures
        r is Some <==> c_vine_spec(order@) is Some,
        r matches Some(v) ==> c_vine_spec(order@) == Some(levels_view(v@)),
{
    let n = order.len();
    if n == 0 {
        return None;
    }
    let root = order[0];
    let mut first: Vec<VineEdge> = Vec::new();
    let mut i: usize = 1;
    while i < n
        invariant
            1 <= i <= n,
            n == order@.len(),
            root == order@[0],
            edges_view(first@) =~= c_vine_first_tree(order@).subrange(0, i - 1),
        decreases n - i,
    {
        let edge = VineEdge { var1: root, var2: order[i], conditioning_set: Vec::new() };
        let ghost before = first@;
        first.push(edge);
        proof {
            assert(edges_view(first@) =~= edges_view(before).push(edge@));
            assert(edge@ == c_vine_first_tree(order@)[i - 1]);
        }
        i = i + 1;
    }
    let ghost first_view = c_vine_first_tree(order@);
    assert(edges_view(first@) =~= first_view);
    let mut trees: Vec<VineLevel> = Vec::new();
    trees.push(VineLevel { level: 1, edges: first });
    assert(levels_view(trees@) =~= seq![LevelView { level: 1, edges: first_view }]);
    let mut level: usize = 2;
    while level < n
        invariant
            2 <= level,
            n >= 2 ==> level <= n,
            n < 2 ==> level == 2,
            n == order@.len(),
            first_view == c_vine_first_tree(order@),
            vine_trees(first_view, c_vine_step(), (level - 1) as nat) == Some(levels_view(trees@)),
        decreases n - level,
    {
        if trees.len() < level - 1 {
            proof {
                assert(vine_trees(first_view, c_vine_step(), level as nat) is None);
                lemma_vine_trees_none_stays(first_view, c_vine_step(), level as nat, last_level(n as nat));
            }
            return None;
        }
        let built = c_vine_next_level(&trees[level - 2].edges, level);
        let ghost tv = levels_view(trees@);
        proof {
            assert(tv[level - 2] == trees@[level - 2]@);
            lemma_vine_trees_step(first_view, c_vine_step(), level as nat, tv, edges_view(built@));
        }
        if built.len() > 0 {
            let new_level = VineLevel { level, edges: built };
            let ghost nl = new_level@;
            trees.push(new_level);
            assert(levels_view(trees@) =~= tv.push(nl));
        }
        level = level + 1;
    }
    assert((level - 1) as nat == last_level(order@.len()));
    Some(trees)
}

/// The D-vine tree built from `prev`.
fn d_vine_next_level(prev: &Vec<VineEdge>) -> (r: Vec<VineEdge>)
    ensures
        edges_view(r@) == d_vine_next(edges_view(prev@)),
{
    let ghost pv = edges_view(prev@);
    let len = prev.len();
    let mut out: Vec<VineEdge> = Vec::new();
    let mut i: usize = 0;
    while i + 1 < len
        invariant
            len == prev@.len(),
            i + 1 <= len || i == 0,
            pv == edges_view(prev@),
            edges_view(out@) =~= d_vine_next(pv).subrange(0, i as int),
        decreases len - i,
    {
        let ei = &prev[i];
        let ej = &prev[i + 1];
        let new_var1 = if ei.var1 != ej.var1 && ei.var1 != ej.var2 { ei.var1 } else { ei.var2 };
        let new_var2 = if ej.var1 != ei.var1 && ej.var1 != ei.var2 { ej.var1 } else { ej.var2 };
        let edge = VineEdge {
            var1: new_var1,
            var2: new_var2,
            conditioning_set: nodes_without(ei, new_var1, new_var2),
        };
        let ghost before = out@;
        out.push(edge);
        proof {
            assert(pv[i as int] == ei@);
            assert(pv[i as int + 1] == ej@);
            assert(edge@ == d_vine_next(pv)[i as int]);
            assert(edges_view(out@) =~= edges_view(before).push(edge@));
        }
        i = i + 1;
    }
    proof {
        assert(d_vine_next(pv).len() == i);
        assert(d_vine_next(pv).subrange(0, i as int) =~= d_vine_next(pv));
    }
    out
}

/// The trees of the D-vine for the variable order `order`.
///
/// The first tree is the path through the order. Each later tree, for the
/// levels 2 up to `order.len() - 1`, joins each two consecutive edges of
/// the tree before: the new edge pairs the variable of each that the other
/// does not hold (its second variable where both are held), conditioned on
/// the other variables the first of the two touches. `None` for an empty
/// order, and where a level's predecessor is missing.
pub fn d_vine_structure(order: &Vec<usize>) -> (r: Option<Vec<VineLevel>>)
    ensures
        r is Some <==> d_vine_spec(order@) is Some,
        r matches Some(v) ==> d_vine_spec(order@) == Some(levels_view(v@)),
{
    let n = order.len();
    if n == 0 {
        return None;
    }
    let mut first: Vec<VineEdge> = Vec::new();
    let mut i: usize = 0;
    while i + 1 < n
        invariant
            i + 1 <= n,
            n == order@.len(),
            edges_view(first@) =~= d_vine_first_tree(order@).subrange(0, i as int),
        decreases n - i,
    {
        let edge = VineEdge { var1: order[i], var2: order[i + 1], conditioning_set: Vec::new() };
        let ghost before = first@;
        first.push(edge);
        proof {
            assert(edges_view(first@) =~= edges_view(before).push(edge@));
            assert(edge@ == d_vine_first_tree(order@)[i as int]);
        }
        i = i + 1;
    }
    let ghost first_view = d_vine_first_tree(order@);
    assert(edges_view(first@) =~= first_view);
    let mut trees: Vec<VineLevel> = Vec::new();
    trees.push(VineLevel { level: 1, edges: first });
    assert(levels_view(trees@) =~= seq![LevelView { level: 1, edges: first_view }]);
    let mut level: usize = 2;
    while level < n
        invariant
            2 <= level,
            n >= 2 ==> level <= n,
            n < 2 ==> level == 2,
            n == order@.len(),
            first_view == d_vine_first_tree(order@),
            vine_trees(first_view, d_vine_step(), (level - 1) as nat) == Some(levels_view(trees@)),
        decreases n - level,
    {
        if trees.len() < level - 1 {
            proof {
                assert(vine_trees(first_view, d_vine_step(), level as nat) is None);
                lemma_vine_trees_none_stays(first_view, d_vine_step(), level as nat, last_level(n as nat));
            }
            return None;
        }
        let built = d_vine_next_level(&trees[level - 2].edges);
        let ghost tv = levels_view(trees@);
        proof {
            assert(tv[level - 2] == trees@[level - 2]@);
            lemma_vine_trees_step(first_view, d_vine_step(), level as nat, tv, edges_view(built@));
        }
        if built.len() > 0 {
            let new_level = VineLevel { level, edges: built };
            let ghost nl = new_level@;
            trees.push(new_level);
            assert(levels_view(trees@) =~= tv.push(nl));
        }
        level = level + 1;
    }
    assert((level - 1) as nat == last_level(order@.len()));
    Some(trees)
}

// ---------------------------------------------------------------- laws

/// Every edge of `edges` has `root` as its first variable.
pub open spec fn all_rooted(edges: Seq<EdgeView>, root: usize) -> bool {
    forall|m: int| 0 <= m < edges.len() ==> (#[trigger] edges[m]).var1 == root
}

proof fn lemma_c_vine_row_rooted(prev: Seq<EdgeView>, level: int, i: int, j_end: int, root: usize)
    requires
        all_rooted(prev, root),
        0 <= i < prev.len(),
        j_end <= prev.len(),
    ensures
        all_rooted(c_vine_row(prev, level, i, j_end), root),
    decreases j_end - i,
{
    if j_end > i + 1 {
        lemma_c_vine_row_rooted(prev, level, i, j_end - 1, root);
        assert(prev[i].var1 == root);
    }
}

proof fn lemma_c_vine_rows_rooted(prev: Seq<EdgeView>, level: int, i_end: int, root: usize)
    requires
        all_rooted(prev, root),
        i_end <= prev.len(),
    ensures
        all_rooted(c_vine_rows(prev, level, i_end), root),
    decreases i_end,
{
    if i_end > 0 {
        lemma_c_vine_rows_rooted(prev, level, i_end - 1, root);
        lemma_c_vine_row_rooted(prev, level, i_end - 1, prev.len() as int, root);
        let a = c_vine_rows(prev, level, i_end - 1);
        let b = c_vine_row(prev, level, i_end - 1, prev.len() as int);
        assert forall|m: int| 0 <= m < (a + b).len() implies (#[trigger] (a + b)[m]).var1 == root by {
            if m < a.len() {
                assert((a + b)[m] == a[m]);
            } else {
                assert((a + b)[m] == b[m - a.len()]);
            }
        }
    }
}

proof fn lemma_c_vine_trees_rooted(order: Seq<usize>, last: nat)
    requires
        order.len() >= 1,
    ensures
        vine_trees(c_vine_first_tree(order), c_vine_step(), last) matches Some(t) ==> {
            &&& t.len() >= 1
            &&& t[0] == (LevelView { level: 1, edges: c_vine_first_tree(order) })
            &&& forall|k: int| 0 <= k < t.len() ==> all_rooted(#[trigger] t[k].edges, order[0])
        },
    decreases last,
{
    let first = c_vine_first_tree(order);
    if last > 1 {
        lemma_c_vine_trees_rooted(order, (last - 1) as nat);
        match vine_trees(first, c_vine_step(), (last - 1) as nat) {
            None => {},
            Some(t) => {
                if t.len() >= last - 1 {
                    let e = c_vine_next(t[last - 2].edges, last as int);
                    assert(all_rooted(t[last - 2].edges, order[0]));
                    lemma_c_vine_rows_rooted(t[last - 2].edges, last as int, t[last - 2].edges.len() as int, order[0]);
                    if e.len() > 0 {
                        let t2 = t.push(LevelView { level: last as usize, edges: e });
                        assert forall|k: int| 0 <= k < t2.len() implies all_rooted(#[trigger] t2[k].edges, order[0]) by {
                            if k < t.len() {
                                assert(t2[k] == t[k]);
                            }
                        }
                    }
                }
            },
        }
    }
}

/// Every pair of a C-vine involves the first variable of the order: the
/// first tree is the star around it, and every edge of every tree has it
/// as its first variable.
pub proof fn c_vine_is_rooted(order: Seq<usize>)
    requires
        order.len() >= 1,
    ensures
        c_vine_spec(order) matches Some(t) ==> {
            &&& t.len() >= 1
            &&& t[0].level == 1
            &&& t[0].edges == c_vine_first_tree(order)
            &&& forall|k: int, m: int|
                0 <= k < t.len() && 0 <= m < t[k].edges.len() ==> #[trigger] t[k].edges[m].var1 == order[0]
        },
{
    lemma_c_vine_trees_rooted(order, last_level(order.len()));
    if let Some(t) = c_vine_spec(order) {
        assert forall|k: int, m: int|
            0 <= k < t.len() && 0 <= m < t[k].edges.len() implies #[trigger] t[k].edges[m].var1 == order[0] by {
            assert(all_rooted(t[k].edges, order[0]));
        }
    }
}

proof fn lemma_d_vine_trees_shape(order: Seq<usize>, last: nat)
    requires
        1 <= order.len() <= usize::MAX,
        1 <= last <= last_level(order.len()),
    ensures
        vine_trees(d_vine_first_tree(order), d_vine_step(), last) matches Some(t) && {
            &&& t.len() == last
            &&& t[0].edges == d_vine_first_tree(order)
            &&& forall|k: int| 0 <= k < t.len() ==> (#[trigger] t[k]).level == k + 1
                && t[k].edges.len() == order.len() - 1 - k
        },
    decreases last,
{
    if last > 1 {
        lemma_d_vine_trees_shape(order, (last - 1) as nat);
        let t = vine_trees(d_vine_first_tree(order), d_vine_step(), (last - 1) as nat)->Some_0;
        let e = d_vine_next(t[last - 2].edges);
        assert(e.len() == order.len() - last);
        let t2 = t.push(LevelView { level: last as usize, edges: e });
        assert forall|k: int| 0 <= k < t2.len() implies (#[trigger] t2[k]).level == k + 1
            && t2[k].edges.len() == order.len() - 1 - k by {
            if k < t.len() {
                assert(t2[k] == t[k]);
            }
        }
    }
}

/// A D-vine is built for every non-empty order: one tree per level from 1
/// up to `max(n - 1, 1)` for `n` variables, the tree at level `k` holding
/// `n - k` edges, the first tree being the path through the order.
pub proof fn d_vine_shape(order: Seq<usize>)
    requires
        1 <= order.len() <= usize::MAX,
    ensures
        d_vine_spec(order) matches Some(t) && {
            &&& t.len() == last_level(order.len())
            &&& t[0].edges == d_vine_first_tree(order)
            &&& forall|k: int| 0 <= k < t.len() ==> (#[trigger] t[k]).level == k + 1
                && t[k].edges.len() == order.len() - 1 - k
        },
{
    lemma_d_vine_trees_shape(order, last_level(order.len()));
}

} // verus!
