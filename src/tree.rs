//! A forest of flex nodes held by taffy's tree.
//!
//! Nodes are named by the `u64` form of taffy's node ids. The library keeps
//! the tree a forest: a node is attached only when it has no parent and is
//! not the root of the would-be parent's own tree, so that taffy's walks up
//! and down the tree always end.
use vstd::prelude::*;

verus! {

#[verifier::external_type_specification]
#[verifier::external_body]
#[verifier::reject_recursive_types(NodeContext)]
pub struct ExTaffyTree<NodeContext = ()>(taffy::TaffyTree<NodeContext>);

#[verifier::external_type_specification]
#[verifier::external_body]
pub struct ExTaffyError(taffy::TaffyError);

#[verifier::external_type_specification]
#[verifier::external_body]
pub struct ExStyle(taffy::Style);

#[verifier::external_type_specification]
#[verifier::external_body]
pub struct ExLayout(taffy::Layout);

#[verifier::external_type_specification]
#[verifier::external_body]
pub struct ExAvailableSpace(taffy::AvailableSpace);

#[verifier::external_type_specification]
#[verifier::external_body]
#[verifier::reject_recursive_types(T)]
pub struct ExSize<T>(taffy::Size<T>);

/// The child list of every node of a taffy tree; its domain is the set of
/// the tree's nodes.
pub uninterp spec fn engine_children(t: taffy::TaffyTree) -> Map<u64, Seq<u64>>;

/// The parent of every node of a taffy tree that has one.
pub uninterp spec fn engine_parents(t: taffy::TaffyTree) -> Map<u64, u64>;

/// The style stored for every node of a taffy tree.
pub uninterp spec fn engine_styles(t: taffy::TaffyTree) -> Map<u64, taffy::Style>;

/// The layout that taffy reports for every node of a taffy tree (with its
/// default configuration, which rounds layouts and which this library never
/// changes).
pub uninterp spec fn engine_layouts(t: taffy::TaffyTree) -> Map<u64, taffy::Layout>;

/// The layouts that a layout pass from node `n` within `space` leaves in a
/// taffy tree: a function of the tree and the two arguments alone.
pub uninterp spec fn laid_out(
    t: taffy::TaffyTree,
    n: u64,
    space: taffy::Size<taffy::AvailableSpace>,
) -> Map<u64, taffy::Layout>;

/// Whether the walk from `x` up through the parents reaches a node without
/// a parent within `f` steps.
pub open spec fn climbs(par: Map<u64, u64>, x: u64, f: nat) -> bool
    decreases f,
{
    if par.contains_key(x) {
        f > 0 && climbs(par, par[x], (f - 1) as nat)
    } else {
        true
    }
}

/// Where the walk from `x` up through the parents stands after at most `f`
/// steps: the root of `x` when `climbs(par, x, f)`.
pub open spec fn root_within(par: Map<u64, u64>, x: u64, f: nat) -> u64
    decreases f,
{
    if par.contains_key(x) && f > 0 {
        root_within(par, par[x], (f - 1) as nat)
    } else {
        x
    }
}

/// Every walk up from a node ends.
pub open spec fn acyclic(par: Map<u64, u64>, nodes: Set<u64>) -> bool {
    forall|x: u64| nodes.contains(x) ==> exists|f: nat| climbs(par, x, f)
}

/// The tree is a forest whose child lists and parent links agree.
pub open spec fn forest(ch: Map<u64, Seq<u64>>, par: Map<u64, u64>) -> bool {
    &&& forall|c: u64| par.contains_key(c) ==> ch.contains_key(c) && ch.contains_key(par[c])
    &&& forall|p: u64, c: u64|
        ch.contains_key(p) ==> (ch[p].contains(c) <==> (par.contains_key(c) && par[c] == p))
    &&& forall|p: u64| ch.contains_key(p) ==> ch[p].no_duplicates()
    &&& acyclic(par, ch.dom())
}

/// Relies on taffy::TaffyTree::new: a tree with no node.
#[verifier::external_body]
fn engine_new() -> (r: taffy::TaffyTree)
    ensures
        engine_children(r).dom() == Set::<u64>::empty(),
        engine_parents(r).dom() == Set::<u64>::empty(),
{
    taffy::TaffyTree::new()
}

/// Relies on taffy::TaffyTree::new_leaf with the default style: it always
/// succeeds and adds a node, under a fresh id, with no parent and no child.
#[verifier::external_body]
fn engine_new_leaf(t: &mut taffy::TaffyTree) -> (r: Result<u64, taffy::TaffyError>)
    ensures
        r matches Ok(id) && !engine_children(*old(t)).contains_key(id)
            && engine_children(*final(t)) == engine_children(*old(t)).insert(id, Seq::empty()),
        engine_parents(*final(t)) == engine_parents(*old(t)),
        engine_styles(*old(t)).submap_of(engine_styles(*final(t))),
        engine_layouts(*old(t)).submap_of(engine_layouts(*final(t))),
{
    t.new_leaf(taffy::Style::default()).map(u64::from)
}

/// Relies on taffy::TaffyTree::add_child: it appends `c` to the children of
/// `p` and makes `p` the parent of `c`. It indexes both nodes, and marks `p`
/// and its ancestors dirty by walking up the parents (indexing each), which
/// ends only when that walk does not come back through `c`.
#[verifier::external_body]
fn engine_add_child(t: &mut taffy::TaffyTree, p: u64, c: u64) -> (r: Result<(), taffy::TaffyError>)
    requires
        engine_children(*old(t)).contains_key(p),
        engine_children(*old(t)).contains_key(c),
        !engine_parents(*old(t)).contains_key(c),
        forest(engine_children(*old(t)), engine_parents(*old(t))),
        exists|f: nat|
            climbs(engine_parents(*old(t)), p, f) && root_within(engine_parents(*old(t)), p, f)
                != c,
    ensures
        r is Ok,
        engine_children(*final(t)) == engine_children(*old(t)).insert(
            p,
            engine_children(*old(t))[p].push(c),
        ),
        engine_parents(*final(t)) == engine_parents(*old(t)).insert(c, p),
        engine_styles(*final(t)) == engine_styles(*old(t)),
        engine_layouts(*final(t)) == engine_layouts(*old(t)),
{
    t.add_child(taffy::NodeId::from(p), taffy::NodeId::from(c))
}

/// Relies on taffy::TaffyTree::remove_child: it removes the first `c` from
/// the children of `p` (it panics when there is none) and clears the parent
/// of `c`, then marks `p` and its ancestors dirty, walking up the parents.
#[verifier::external_body]
fn engine_remove_child(t: &mut taffy::TaffyTree, p: u64, c: u64) -> (r: Result<u64, taffy::TaffyError>)
    requires
        engine_children(*old(t)).contains_key(p),
        engine_children(*old(t)).contains_key(c),
        engine_children(*old(t))[p].contains(c),
        forest(engine_children(*old(t)), engine_parents(*old(t))),
    ensures
        r is Ok,
        r->Ok_0 == c,
        exists|i: int|
            0 <= i < engine_children(*old(t))[p].len() && engine_children(*old(t))[p][i] == c
                && engine_children(*final(t)) == engine_children(*old(t)).insert(
                p,
                engine_children(*old(t))[p].remove(i),
            ),
        engine_parents(*final(t)) == engine_parents(*old(t)).remove(c),
        engine_styles(*final(t)) == engine_styles(*old(t)),
        engine_layouts(*final(t)) == engine_layouts(*old(t)),
{
    t.remove_child(taffy::NodeId::from(p), taffy::NodeId::from(c)).map(u64::from)
}

/// Relies on taffy::TaffyTree::children: the child list of `p`, in order.
#[verifier::external_body]
fn engine_children_of(t: &taffy::TaffyTree, p: u64) -> (r: Result<Vec<u64>, taffy::TaffyError>)
    requires
        engine_children(*t).contains_key(p),
    ensures
        r is Ok,
        r->Ok_0@ == engine_children(*t)[p],
{
    t.children(taffy::NodeId::from(p)).map(|v| v.into_iter().map(u64::from).collect())
}

/// Relies on taffy::TaffyTree::parent: the parent of `x`, if it has one.
#[verifier::external_body]
fn engine_parent(t: &taffy::TaffyTree, x: u64) -> (r: Option<u64>)
    requires
        engine_children(*t).contains_key(x),
    ensures
        engine_parents(*t).contains_key(x) ==> r == Some(engine_parents(*t)[x]),
        !engine_parents(*t).contains_key(x) ==> r is None,
{
    t.parent(taffy::NodeId::from(x)).map(u64::from)
}

/// Relies on taffy::TaffyTree::set_style: it replaces the style of `n` and
/// marks `n` and its ancestors dirty, walking up the parents, which clears
/// only their layout caches; the tree's shape and the reported layouts are
/// untouched.
#[verifier::external_body]
fn engine_set_style(t: &mut taffy::TaffyTree, n: u64, style: taffy::Style) -> (r: Result<(), taffy::TaffyError>)
    requires
        engine_children(*old(t)).contains_key(n),
        forest(engine_children(*old(t)), engine_parents(*old(t))),
    ensures
        r is Ok,
        engine_children(*final(t)) == engine_children(*old(t)),
        engine_parents(*final(t)) == engine_parents(*old(t)),
        engine_styles(*final(t)) == engine_styles(*old(t)).insert(n, style),
        engine_layouts(*final(t)) == engine_layouts(*old(t)),
{
    t.set_style(taffy::NodeId::from(n), style)
}

/// Relies on taffy::TaffyTree::compute_layout: it lays out `n` and its
/// subtree, recursing down the child lists (which ends on a forest), and
/// stores the results; the tree's shape and the styles are untouched. taffy
/// is built with its flexbox algorithm only, so every node is laid out as a
/// flex container or a leaf.
#[verifier::external_body]
fn engine_compute_layout(
    t: &mut taffy::TaffyTree,
    n: u64,
    space: taffy::Size<taffy::AvailableSpace>,
) -> (r: Result<(), taffy::TaffyError>)
    requires
        engine_children(*old(t)).contains_key(n),
        forest(engine_children(*old(t)), engine_parents(*old(t))),
    ensures
        r is Ok,
        engine_children(*final(t)) == engine_children(*old(t)),
        engine_parents(*final(t)) == engine_parents(*old(t)),
        engine_styles(*final(t)) == engine_styles(*old(t)),
        engine_layouts(*final(t)) == laid_out(*old(t), n, space),
{
    t.compute_layout(taffy::NodeId::from(n), space)
}

/// Relies on taffy::TaffyTree::layout: the layout stored for `n`.
#[verifier::external_body]
fn engine_layout(t: &taffy::TaffyTree, n: u64) -> (r: Result<taffy::Layout, taffy::TaffyError>)
    requires
        engine_children(*t).contains_key(n),
    ensures
        r is Ok,
        r->Ok_0 == engine_layouts(*t)[n],
{
    t.layout(taffy::NodeId::from(n)).copied()
}

/// A longer walk up ends where a shorter one that already ended does.
proof fn lemma_climbs_more(par: Map<u64, u64>, x: u64, f: nat, g: nat)
    requires
        climbs(par, x, f),
        f <= g,
    ensures
        climbs(par, x, g),
        root_within(par, x, g) == root_within(par, x, f),
    decreases f,
{
    if par.contains_key(x) {
        lemma_climbs_more(par, par[x], (f - 1) as nat, (g - 1) as nat);
    }
}

/// Giving a parent to a root `c` leaves alone every walk that does not end
/// at `c`.
proof fn lemma_attach_keeps_walk(par: Map<u64, u64>, x: u64, f: nat, c: u64, p: u64)
    requires
        climbs(par, x, f),
        root_within(par, x, f) != c,
        !par.contains_key(c),
    ensures
        climbs(par.insert(c, p), x, f),
        root_within(par.insert(c, p), x, f) == root_within(par, x, f),
    decreases f,
{
    if par.contains_key(x) {
        lemma_attach_keeps_walk(par, par[x], (f - 1) as nat, c, p);
    }
}

/// After a root `c` gets the parent `p`, whose walk ends within `fp` steps
/// elsewhere than at `c`, a walk that ended within `f` steps ends within
/// `f + fp + 1`.
proof fn lemma_attach_walk_ends(par: Map<u64, u64>, x: u64, f: nat, c: u64, p: u64, fp: nat)
    requires
        climbs(par, x, f),
        !par.contains_key(c),
        climbs(par, p, fp),
        root_within(par, p, fp) != c,
    ensures
        climbs(par.insert(c, p), x, f + fp + 1),
    decreases f,
{
    let q = par.insert(c, p);
    if par.contains_key(x) {
        lemma_attach_walk_ends(par, par[x], (f - 1) as nat, c, p, fp);
        assert(q[x] == par[x]);
    } else if x == c {
        lemma_attach_keeps_walk(par, p, fp, c, p);
        lemma_climbs_more(q, p, fp, f + fp);
    }
}

/// Taking the parent away from `c` leaves every walk ending.
proof fn lemma_detach_walk_ends(par: Map<u64, u64>, x: u64, f: nat, c: u64)
    requires
        climbs(par, x, f),
    ensures
        climbs(par.remove(c), x, f),
    decreases f,
{
    if par.contains_key(x) {
        lemma_detach_walk_ends(par, par[x], (f - 1) as nat, c);
    }
}

/// Removing the one `c` of a list without duplicates keeps every other item
/// and no duplicate.
proof fn lemma_remove_unique(s: Seq<u64>, i: int, c: u64)
    requires
        s.no_duplicates(),
        0 <= i < s.len(),
        s[i] == c,
    ensures
        s.remove(i).no_duplicates(),
        forall|y: u64| s.remove(i).contains(y) <==> (s.contains(y) && y != c),
{
    let r = s.remove(i);
    assert forall|y: u64| r.contains(y) <==> (s.contains(y) && y != c) by {
        if r.contains(y) {
            let k = choose|k: int| 0 <= k < r.len() && r[k] == y;
            if k < i {
                assert(s[k] == y);
            } else {
                assert(s[k + 1] == y);
            }
        }
        if s.contains(y) && y != c {
            let k = choose|k: int| 0 <= k < s.len() && s[k] == y;
            if k < i {
                assert(r[k] == y);
            } else {
                assert(k != i);
                assert(r[k - 1] == y);
            }
        }
    }
}

/// Appending a `c` that the list does not hold keeps it without duplicates.
proof fn lemma_push_fresh(s: Seq<u64>, c: u64)
    requires
        s.no_duplicates(),
        !s.contains(c),
    ensures
        s.push(c).no_duplicates(),
        forall|y: u64| s.push(c).contains(y) <==> (s.contains(y) || y == c),
{
    let r = s.push(c);
    assert forall|y: u64| r.contains(y) <==> (s.contains(y) || y == c) by {
        if r.contains(y) {
            let k = choose|k: int| 0 <= k < r.len() && r[k] == y;
            if k < s.len() {
                assert(s[k] == y);
            }
        }
        if s.contains(y) {
            let k = choose|k: int| 0 <= k < s.len() && s[k] == y;
            assert(r[k] == y);
        }
        if y == c {
            assert(r[s.len() as int] == y);
        }
    }
    assert forall|a: int, b: int| 0 <= a < r.len() && 0 <= b < r.len() && a != b implies r[a]
        != r[b] by {
        if a == s.len() {
            assert(s[b] == r[b]);
        } else if b == s.len() {
            assert(s[a] == r[a]);
        }
    }
}

/// The root of `x`: where the walk up from `x` ends.
pub open spec fn root_of(par: Map<u64, u64>, x: u64) -> u64 {
    root_within(par, x, choose|f: nat| climbs(par, x, f))
}

/// A forest of flex nodes, held by taffy.
pub struct LayoutTree {
    engine: taffy::TaffyTree,
    /// Every node of the tree, in the order of creation.
    nodes: Vec<u64>,
}

impl LayoutTree {
    /// The tree is a forest and `nodes` lists exactly its nodes.
    pub closed spec fn wf(self) -> bool {
        &&& forest(engine_children(self.engine), engine_parents(self.engine))
        &&& forall|x: u64|
            #![trigger self.nodes@.contains(x)]
            #![trigger engine_children(self.engine).contains_key(x)]
            self.nodes@.contains(x) <==> engine_children(self.engine).contains_key(x)
    }

    /// The child list of every node; its domain is the set of nodes.
    pub closed spec fn children(self) -> Map<u64, Seq<u64>> {
        engine_children(self.engine)
    }

    /// The parent of every node that has one.
    pub closed spec fn parents(self) -> Map<u64, u64> {
        engine_parents(self.engine)
    }

    /// The style installed on every node.
    pub closed spec fn styles(self) -> Map<u64, taffy::Style> {
        engine_styles(self.engine)
    }

    /// The last computed layout of every node.
    pub closed spec fn layouts(self) -> Map<u64, taffy::Layout> {
        engine_layouts(self.engine)
    }

    /// The layouts that laying out `n` within `space` would leave.
    pub closed spec fn layouts_after(self, n: u64, space: taffy::Size<taffy::AvailableSpace>) -> Map<
        u64,
        taffy::Layout,
    > {
        laid_out(self.engine, n, space)
    }

    /// Whether `child` may be attached under `parent`: both are nodes,
    /// `child` has no parent, and `child` is not the root of `parent`.
    pub open spec fn may_attach(self, parent: u64, child: u64) -> bool {
        &&& self.children().contains_key(parent)
        &&& self.children().contains_key(child)
        &&& !self.parents().contains_key(child)
        &&& root_of(self.parents(), parent) != child
    }

    /// An empty tree.
    pub fn new() -> (r: LayoutTree)
        ensures
            r.wf(),
            r.children().dom() == Set::<u64>::empty(),
            r.parents().dom() == Set::<u64>::empty(),
    {
        let engine = engine_new();
        let nodes: Vec<u64> = Vec::new();
        proof {
            assert(forall|x: u64| !engine_children(engine).contains_key(x));
            assert(forall|x: u64| !engine_parents(engine).contains_key(x));
        }
        LayoutTree { engine, nodes }
    }

    /// Adds a node with the default style, no parent and no child.
    pub fn new_node(&mut self) -> (id: u64)
        requires
            old(self).wf(),
        ensures
            final(self).wf(),
            !old(self).children().contains_key(id),
            final(self).children() == old(self).children().insert(id, Seq::<u64>::empty()),
            final(self).parents() == old(self).parents(),
            old(self).styles().submap_of(final(self).styles()),
            old(self).layouts().submap_of(final(self).layouts()),
    {
        let ghost ch = engine_children(self.engine);
        let ghost par = engine_parents(self.engine);
        let r = engine_new_leaf(&mut self.engine);
        let id = match r {
            Ok(id) => id,
            Err(_) => {
                proof {
                    assert(false);
                }
                0
            },
        };
        self.nodes.push(id);
        proof {
            let ch2 = engine_children(self.engine);
            assert(ch2.dom() == ch.dom().insert(id));
            assert forall|x: u64| ch2.contains_key(x) implies exists|f: nat| climbs(par, x, f) by {
                if x == id {
                    assert(!par.contains_key(id));
                    assert(climbs(par, x, 0));
                }
            }
            assert forall|q: u64, y: u64| ch2.contains_key(q) implies (ch2[q].contains(y) <==> (
            par.contains_key(y) && par[y] == q)) by {
                if q == id {
                    assert(!ch2[q].contains(y));
                }
            }
            assert(self.nodes@ == old(self).nodes@.push(id));
            assert forall|x: u64| self.nodes@.contains(x) <==> ch2.contains_key(x) by {
                if x == id {
                    assert(self.nodes@[self.nodes@.len() - 1] == x);
                    assert(self.nodes@.contains(x));
                } else {
                    if self.nodes@.contains(x) {
                        let k = choose|k: int| 0 <= k < self.nodes@.len() && self.nodes@[k] == x;
                        assert(k < old(self).nodes@.len());
                        assert(old(self).nodes@[k] == x);
                        assert(old(self).nodes@.contains(x));
                    }
                    if ch2.contains_key(x) {
                        assert(ch.contains_key(x));
                        assert(old(self).nodes@.contains(x));
                        let k = choose|k: int|
                            0 <= k < old(self).nodes@.len() && old(self).nodes@[k] == x;
                        assert(self.nodes@[k] == x);
                        assert(self.nodes@.contains(x));
                    }
                }
            }
        }
        id
    }

    /// Whether `n` is a node of this tree.
    pub fn contains(&self, n: u64) -> (r: bool)
        requires
            self.wf(),
        ensures
            r == self.children().contains_key(n),
    {
        let mut i: usize = 0;
        while i < self.nodes.len()
            invariant
                self.wf(),
                0 <= i <= self.nodes.len(),
                forall|k: int| 0 <= k < i ==> self.nodes@[k] != n,
            decreases self.nodes.len() - i,
        {
            if self.nodes[i] == n {
                proof {
                    assert(self.nodes@[i as int] == n);
                }
                return true;
            }
            i = i + 1;
        }
        proof {
            assert(!self.nodes@.contains(n));
        }
        false
    }

    /// The root of `x`, found by walking up the parents.
    fn find_root(&self, x: u64) -> (r: u64)
        requires
            self.wf(),
            self.children().contains_key(x),
        ensures
            r == root_of(self.parents(), x),
    {
        let ghost par = self.parents();
        let ghost f0: nat = choose|f: nat| climbs(par, x, f);
        assert(root_of(par, x) == root_within(par, x, f0));
        let mut y: u64 = x;
        let ghost mut g: nat = f0;
        loop
            invariant
                self.wf(),
                par == engine_parents(self.engine),
                par == self.parents(),
                root_of(par, x) == root_within(par, x, f0),
                self.children().contains_key(y),
                climbs(par, x, f0),
                climbs(par, y, g),
                root_within(par, y, g) == root_within(par, x, f0),
            decreases g,
        {
            match engine_parent(&self.engine, y) {
                Some(q) => {
                    y = q;
                    proof {
                        g = (g - 1) as nat;
                    }
                },
                None => {
                    proof {
                        assert(!par.contains_key(y));
                        assert(root_within(par, y, g) == y);
                    }
                    return y;
                },
            }
        }
    }

    /// Attaches `child` as the last child of `parent` when `may_attach`
    /// allows it, and says whether it did; otherwise nothing changes.
    pub fn insert_child(&mut self, parent: u64, child: u64) -> (attached: bool)
        requires
            old(self).wf(),
        ensures
            final(self).wf(),
            attached == old(self).may_attach(parent, child),
            attached ==> final(self).children() == old(self).children().insert(
                parent,
                old(self).children()[parent].push(child),
            ),
            attached ==> final(self).parents() == old(self).parents().insert(child, parent),
            !attached ==> final(self).children() == old(self).children(),
            !attached ==> final(self).parents() == old(self).parents(),
            final(self).styles() == old(self).styles(),
            final(self).layouts() == old(self).layouts(),
    {
        if !self.contains(parent) || !self.contains(child) {
            return false;
        }
        if engine_parent(&self.engine, child).is_some() {
            return false;
        }
        let root = self.find_root(parent);
        if root == child {
            return false;
        }
        let ghost ch = engine_children(self.engine);
        let ghost par = engine_parents(self.engine);
        let ghost fp: nat = choose|f: nat| climbs(par, parent, f);
        proof {
            assert(climbs(par, parent, fp) && root_within(par, parent, fp) != child);
            assert(!ch[parent].contains(child));
            lemma_push_fresh(ch[parent], child);
        }
        let _ = engine_add_child(&mut self.engine, parent, child);
        proof {
            let ch2 = engine_children(self.engine);
            let par2 = engine_parents(self.engine);
            assert(ch2.dom() =~= ch.dom());
            assert forall|x: u64| ch2.contains_key(x) implies exists|f: nat| climbs(par2, x, f) by {
                let f = choose|f: nat| climbs(par, x, f);
                lemma_attach_walk_ends(par, x, f, child, parent, fp);
            }
            assert forall|q: u64, y: u64| ch2.contains_key(q) implies (ch2[q].contains(y) <==> (
            par2.contains_key(y) && par2[y] == q)) by {
                if q == parent {
                    assert(ch2[q] == ch[parent].push(child));
                    assert(ch[parent].push(child).contains(y) <==> (ch[parent].contains(y) || y
                        == child));
                    assert(ch[parent].contains(y) <==> (par.contains_key(y) && par[y] == parent));
                } else {
                    assert(ch2[q] == ch[q]);
                    assert(ch[q].contains(y) <==> (par.contains_key(y) && par[y] == q));
                }
            }
        }
        true
    }

    /// Detaches `child` from `parent` when it is one of its children, and
    /// says whether it did; otherwise nothing changes. The child stays a
    /// node of the tree.
    pub fn remove_child(&mut self, parent: u64, child: u64) -> (detached: bool)
        requires
            old(self).wf(),
        ensures
            final(self).wf(),
            detached == (old(self).children().contains_key(parent) && old(self).children()[parent].contains(child)),
            detached ==> exists|i: int|
                0 <= i < old(self).children()[parent].len() && old(self).children()[parent][i]
                    == child && final(self).children() == old(self).children().insert(
                    parent,
                    old(self).children()[parent].remove(i),
                ),
            detached ==> final(self).parents() == old(self).parents().remove(child),
            !detached ==> final(self).children() == old(self).children(),
            !detached ==> final(self).parents() == old(self).parents(),
            final(self).styles() == old(self).styles(),
            final(self).layouts() == old(self).layouts(),
    {
        let ghost ch = engine_children(self.engine);
        let ghost par = engine_parents(self.engine);
        if !self.contains(parent) || !self.contains(child) {
            proof {
                if ch.contains_key(parent) && ch[parent].contains(child) {
                    assert(par.contains_key(child));
                }
            }
            return false;
        }
        match engine_parent(&self.engine, child) {
            Some(q) => {
                if q != parent {
                    return false;
                }
            },
            None => {
                return false;
            },
        }
        proof {
            assert(ch[parent].contains(child));
        }
        let _ = engine_remove_child(&mut self.engine, parent, child);
        proof {
            let ch2 = engine_children(self.engine);
            let par2 = engine_parents(self.engine);
            let i = choose|i: int|
                0 <= i < ch[parent].len() && ch[parent][i] == child && ch2 == ch.insert(
                    parent,
                    ch[parent].remove(i),
                );
            lemma_remove_unique(ch[parent], i, child);
            assert(ch2.dom() =~= ch.dom());
            assert forall|x: u64| ch2.contains_key(x) implies exists|f: nat| climbs(par2, x, f) by {
                let f = choose|f: nat| climbs(par, x, f);
                lemma_detach_walk_ends(par, x, f, child);
            }
            assert forall|q: u64, y: u64| ch2.contains_key(q) implies (ch2[q].contains(y) <==> (
            par2.contains_key(y) && par2[y] == q)) by {
                if q == parent {
                    assert(ch2[q] == ch[parent].remove(i));
                    assert(ch[parent].contains(y) <==> (par.contains_key(y) && par[y] == parent));
                } else {
                    assert(ch2[q] == ch[q]);
                    assert(ch[q].contains(y) <==> (par.contains_key(y) && par[y] == q));
                    assert(ch[q].contains(child) <==> (par.contains_key(child) && par[child] == q));
                }
            }
        }
        true
    }

    /// The number of children of `n`, as a `u32`; 0 when `n` is not a node.
    pub fn child_count(&self, n: u64) -> (r: u32)
        requires
            self.wf(),
        ensures
            self.children().contains_key(n) ==> r == self.children()[n].len() as u32,
            !self.children().contains_key(n) ==> r == 0,
    {
        if !self.contains(n) {
            return 0;
        }
        match engine_children_of(&self.engine, n) {
            Ok(v) => v.len() as u32,
            Err(_) => 0,
        }
    }

    /// Installs `style` on `n`, replacing its whole style; nothing happens
    /// when `n` is not a node. Computed layouts stay as they were until the
    /// next layout pass.
    pub fn set_style(&mut self, n: u64, style: taffy::Style)
        requires
            old(self).wf(),
        ensures
            final(self).wf(),
            final(self).children() == old(self).children(),
            final(self).parents() == old(self).parents(),
            final(self).layouts() == old(self).layouts(),
            old(self).children().contains_key(n) ==> final(self).styles() == old(self).styles().insert(n, style),
            !old(self).children().contains_key(n) ==> final(self).styles() == old(self).styles(),
    {
        if self.contains(n) {
            let _ = engine_set_style(&mut self.engine, n, style);
        }
    }

    /// Lays out `n` and its subtree within `space`; nothing happens when
    /// `n` is not a node.
    pub fn compute_layout(&mut self, n: u64, space: taffy::Size<taffy::AvailableSpace>)
        requires
            old(self).wf(),
        ensures
            final(self).wf(),
            final(self).children() == old(self).children(),
            final(self).parents() == old(self).parents(),
            final(self).styles() == old(self).styles(),
            old(self).children().contains_key(n) ==> final(self).layouts() == old(self).layouts_after(n, space),
            !old(self).children().contains_key(n) ==> final(self).layouts() == old(self).layouts(),
    {
        if self.contains(n) {
            let _ = engine_compute_layout(&mut self.engine, n, space);
        }
    }

    /// The last computed layout of `n`; `None` when `n` is not a node.
    pub fn layout(&self, n: u64) -> (r: Option<taffy::Layout>)
        requires
            self.wf(),
        ensures
            r is Some <==> self.children().contains_key(n),
            r matches Some(l) ==> l == self.layouts()[n],
    {
        if !self.contains(n) {
            return None;
        }
        match engine_layout(&self.engine, n) {
            Ok(l) => Some(l),
            Err(_) => None,
        }
    }
}

/// A walk up that starts elsewhere than at `c` never ends at `c` when `c`
/// is nobody's parent.
proof fn lemma_walk_avoids_childless(par: Map<u64, u64>, x: u64, f: nat, c: u64)
    requires
        x != c,
        forall|y: u64| par.contains_key(y) ==> par[y] != c,
    ensures
        root_within(par, x, f) != c,
    decreases f,
{
    if par.contains_key(x) && f > 0 {
        lemma_walk_avoids_childless(par, par[x], (f - 1) as nat, c);
    }
}

/// A node without parent or children can always be attached under any
/// other node. With the contracts of `insert_child`, `remove_child` and
/// `child_count`, the number of children of a node is therefore the number
/// of fresh nodes attached to it less the number detached from it since.
pub proof fn lemma_fresh_node_attaches(t: LayoutTree, parent: u64, child: u64)
    requires
        t.wf(),
        t.children().contains_key(parent),
        t.children().contains_key(child),
        parent != child,
        !t.parents().contains_key(child),
        t.children()[child].len() == 0,
    ensures
        t.may_attach(parent, child),
{
    let par = t.parents();
    assert forall|y: u64| par.contains_key(y) implies par[y] != child by {
        if par[y] == child {
            assert(t.children()[child].contains(y));
        }
    }
    lemma_walk_avoids_childless(par, parent, choose|f: nat| climbs(par, parent, f), child);
}

/// Attaches less detaches in a run of steps (`true` for an attach).
pub open spec fn net_attached(steps: Seq<bool>) -> int
    decreases steps.len(),
{
    if steps.len() == 0 {
        0
    } else {
        net_attached(steps.drop_last()) + if steps.last() {
            1int
        } else {
            -1int
        }
    }
}

/// For any run of child lists of one node in which each list comes from the
/// one before by an attach (`insert_child` appends one child) or a detach
/// (`remove_child` takes one entry out), the last list is as long as the
/// first plus the attaches less the detaches. Since a fresh node always
/// attaches (`lemma_fresh_node_attaches`), the child count after inserting
/// fresh nodes and removing some of them again is the number of inserts less
/// the number of removals.
pub proof fn lemma_child_count_over_run(lists: Seq<Seq<u64>>, steps: Seq<bool>)
    requires
        lists.len() == steps.len() + 1,
        forall|i: int|
            0 <= i < steps.len() && #[trigger] steps[i] ==> exists|c: u64|
                lists[i + 1] == lists[i].push(c),
        forall|i: int|
            0 <= i < steps.len() && !#[trigger] steps[i] ==> exists|j: int|
                0 <= j < lists[i].len() && lists[i + 1] == lists[i].remove(j),
    ensures
        lists.last().len() == lists[0].len() + net_attached(steps),
    decreases steps.len(),
{
    if steps.len() > 0 {
        let k = steps.len() - 1;
        let shorter = lists.drop_last();
        assert forall|i: int| 0 <= i < steps.drop_last().len() && #[trigger] steps.drop_last()[i]
            implies exists|c: u64| shorter[i + 1] == shorter[i].push(c) by {
            assert(steps[i]);
            let c = choose|c: u64| lists[i + 1] == lists[i].push(c);
            assert(shorter[i + 1] == lists[i + 1] && shorter[i] == lists[i]);
            assert(shorter[i + 1] == shorter[i].push(c));
        }
        assert forall|i: int| 0 <= i < steps.drop_last().len() && !#[trigger] steps.drop_last()[i]
            implies exists|j: int| 0 <= j < shorter[i].len() && shorter[i + 1] == shorter[i].remove(j) by {
            assert(!steps[i]);
            let j = choose|j: int| 0 <= j < lists[i].len() && lists[i + 1] == lists[i].remove(j);
            assert(shorter[i + 1] == lists[i + 1] && shorter[i] == lists[i]);
            assert(0 <= j < shorter[i].len() && shorter[i + 1] == shorter[i].remove(j));
        }
        lemma_child_count_over_run(shorter, steps.drop_last());
        if steps[k] {
            let c = choose|c: u64| lists[k + 1] == lists[k].push(c);
        } else {
            let j = choose|j: int| 0 <= j < lists[k].len() && lists[k + 1] == lists[k].remove(j);
        }
    }
}

} // verus!
