//! The structure of the scene graph: which object is the parent of which.
//! Changes (parenting, orphaning, insertion, removal) are queued during a
//! frame and applied, in the order they were made, at its end, so that the
//! objects stay where they are within a frame.
//!
//! The transforms and bounds of the objects are kept by the caller, by
//! object id.

use vstd::prelude::*;
use std::collections::HashMap;

verus! {

/// A node of the scene graph: the object's id, its parent, and its
/// children in the order they were added.
pub struct SceneNode {
    pub id: u64,
    pub parent_id: Option<u64>,
    pub children: Vec<u64>,
}

/// The mathematical view of a `SceneNode`.
pub struct NodeView {
    pub id: u64,
    pub parent_id: Option<u64>,
    pub children: Seq<u64>,
}

impl View for SceneNode {
    type V = NodeView;

    open spec fn view(&self) -> NodeView {
        NodeView { id: self.id, parent_id: self.parent_id, children: self.children@ }
    }
}

/// A queued change of the scene graph.
pub enum SceneGraphChange {
    /// Makes the second object a child of the first.
    Parent(u64, u64),
    /// Removes the second object from the children of the first.
    Orphan(u64, u64),
    /// Adds an object, as a child of its parent if it has one.
    Insert(SceneNode),
    /// Removes an object.
    Remove(u64),
}

/// The mathematical view of a `SceneGraphChange`.
pub enum ChangeView {
    Parent(u64, u64),
    Orphan(u64, u64),
    Insert(NodeView),
    Remove(u64),
}

impl View for SceneGraphChange {
    type V = ChangeView;

    open spec fn view(&self) -> ChangeView {
        match self {
            SceneGraphChange::Parent(p, c) => ChangeView::Parent(*p, *c),
            SceneGraphChange::Orphan(p, c) => ChangeView::Orphan(*p, *c),
            SceneGraphChange::Insert(n) => ChangeView::Insert(n@),
            SceneGraphChange::Remove(id) => ChangeView::Remove(*id),
        }
    }
}

/// `s` without the entries equal to `x`, in order.
pub open spec fn remove_all(s: Seq<u64>, x: u64) -> Seq<u64>
    decreases s.len(),
{
    if s.len() == 0 {
        s
    } else if s.last() == x {
        remove_all(s.drop_last(), x)
    } else {
        remove_all(s.drop_last(), x).push(s.last())
    }
}

/// The change can be applied to the graph `m`: the objects it names exist,
/// and an inserted object does not exist yet.
pub open spec fn change_applies(m: Map<u64, NodeView>, c: ChangeView) -> bool {
    match c {
        ChangeView::Parent(p, ch) => m.contains_key(p) && m.contains_key(ch),
        ChangeView::Orphan(p, ch) => m.contains_key(p) && m.contains_key(ch),
        ChangeView::Insert(n) => (n.parent_id matches Some(p) ==> m.contains_key(p)) && !m.contains_key(
            n.id,
        ),
        ChangeView::Remove(id) => m.contains_key(id),
    }
}

/// The graph `m` after the change `c`: parenting appends the child to the
/// parent's children and sets the child's parent; orphaning removes the
/// child from the parent's children and clears the child's parent;
/// insertion appends the object to its parent's children, if it has one,
/// and adds it; removal removes the object alone.
pub open spec fn apply_change(m: Map<u64, NodeView>, c: ChangeView) -> Map<u64, NodeView> {
    match c {
        ChangeView::Parent(p, ch) => {
            let m1 = m.insert(p, NodeView { children: m[p].children.push(ch), ..m[p] });
            m1.insert(ch, NodeView { parent_id: Some(p), ..m1[ch] })
        },
        ChangeView::Orphan(p, ch) => {
            let m1 = m.insert(p, NodeView { children: remove_all(m[p].children, ch), ..m[p] });
            m1.insert(ch, NodeView { parent_id: None, ..m1[ch] })
        },
        ChangeView::Insert(n) => {
            let m1 = match n.parent_id {
                Some(p) => m.insert(p, NodeView { children: m[p].children.push(n.id), ..m[p] }),
                None => m,
            };
            m1.insert(n.id, n)
        },
        ChangeView::Remove(id) => m.remove(id),
    }
}

/// The graph after the changes `cs`, first to last.
pub open spec fn apply_changes(m: Map<u64, NodeView>, cs: Seq<ChangeView>) -> Map<u64, NodeView>
    decreases cs.len(),
{
    if cs.len() == 0 {
        m
    } else {
        apply_change(apply_changes(m, cs.drop_last()), cs.last())
    }
}

/// Each of the changes `cs` can be applied in turn.
pub open spec fn changes_apply(m: Map<u64, NodeView>, cs: Seq<ChangeView>) -> bool
    decreases cs.len(),
{
    cs.len() == 0 || (changes_apply(m, cs.drop_last()) && change_applies(
        apply_changes(m, cs.drop_last()),
        cs.last(),
    ))
}

/// Whether object `k` is in the graph after the first `i` changes, from
/// the objects `dom` before them: the last insertion or removal of `k`
/// among those changes decides, and the objects before them otherwise.
pub open spec fn present_after(dom: Set<u64>, cs: Seq<ChangeView>, i: int, k: u64) -> bool
    decreases i,
{
    if i <= 0 {
        dom.contains(k)
    } else {
        match cs[i - 1] {
            ChangeView::Insert(n) => if n.id == k {
                true
            } else {
                present_after(dom, cs, i - 1, k)
            },
            ChangeView::Remove(id) => if id == k {
                false
            } else {
                present_after(dom, cs, i - 1, k)
            },
            _ => present_after(dom, cs, i - 1, k),
        }
    }
}

/// While the changes apply, only insertions and removals change which
/// objects are in the graph.
pub proof fn lemma_present_after(m: Map<u64, NodeView>, cs: Seq<ChangeView>, i: int, k: u64)
    requires
        0 <= i <= cs.len(),
        changes_apply(m, cs.take(i)),
    ensures
        apply_changes(m, cs.take(i)).contains_key(k) == present_after(m.dom(), cs, i, k),
    decreases i,
{
    if i > 0 {
        let prefix = cs.take(i);
        assert(prefix.drop_last() =~= cs.take(i - 1));
        lemma_present_after(m, cs, i - 1, k);
        assert(prefix.last() == cs[i - 1]);
    }
}

/// Removing every `x` from a sequence that holds none leaves it as it is.
pub proof fn lemma_remove_all_absent(s: Seq<u64>, x: u64)
    requires
        !s.contains(x),
    ensures
        remove_all(s, x) == s,
    decreases s.len(),
{
    if s.len() > 0 {
        assert(!s.drop_last().contains(x)) by {
            if s.drop_last().contains(x) {
                let k = choose|k: int| 0 <= k < s.drop_last().len() && s.drop_last()[k] == x;
                assert(s[k] == x);
            }
        }
        lemma_remove_all_absent(s.drop_last(), x);
        assert(s.drop_last().push(s.last()) =~= s);
    }
}

/// Orphaning undoes parenting: making `child` a child of `parent` and then
/// orphaning it leaves the parent's children as they were (when `child`
/// was not among them) and leaves the child without a parent, the rest of
/// the graph unchanged.
pub proof fn lemma_orphan_undoes_parent(m: Map<u64, NodeView>, parent: u64, child: u64)
    requires
        m.contains_key(parent),
        m.contains_key(child),
        parent != child,
        !m[parent].children.contains(child),
    ensures
        ({
            let cs = seq![ChangeView::Parent(parent, child), ChangeView::Orphan(parent, child)];
            &&& changes_apply(m, cs)
            &&& apply_changes(m, cs) == m.insert(child, NodeView { parent_id: None, ..m[child] })
        }),
{
    let cs = seq![ChangeView::Parent(parent, child), ChangeView::Orphan(parent, child)];
    let s1 = seq![ChangeView::Parent(parent, child)];
    assert(cs.drop_last() =~= s1);
    assert(s1.drop_last() =~= Seq::<ChangeView>::empty());
    assert(apply_changes(m, s1.drop_last()) == m);
    assert(changes_apply(m, s1.drop_last()));
    let m1 = apply_change(m, ChangeView::Parent(parent, child));
    assert(apply_changes(m, s1) == m1);
    assert(changes_apply(m, s1));
    assert(apply_changes(m, cs.drop_last()) == m1);
    let kids = m[parent].children;
    assert(kids.push(child).drop_last() =~= kids);
    lemma_remove_all_absent(kids, child);
    assert(remove_all(kids.push(child), child) == kids);
    assert(apply_changes(m, cs) =~= m.insert(child, NodeView { parent_id: None, ..m[child] }));
}

/// The views of changes.
pub open spec fn change_views(cs: Seq<SceneGraphChange>) -> Seq<ChangeView> {
    cs.map_values(|c: SceneGraphChange| c@)
}

/// The changes that can be applied in turn can be applied in turn up to
/// any point.
pub proof fn lemma_changes_apply_prefix(m: Map<u64, NodeView>, cs: Seq<ChangeView>, i: int)
    requires
        changes_apply(m, cs),
        0 <= i <= cs.len(),
    ensures
        changes_apply(m, cs.take(i)),
    decreases cs.len(),
{
    if i < cs.len() {
        assert(cs.drop_last().take(i) =~= cs.take(i));
        lemma_changes_apply_prefix(m, cs.drop_last(), i);
    } else {
        assert(cs.take(i) =~= cs);
    }
}

/// The entries of `v` other than `x`, in order.
fn without(v: &Vec<u64>, x: u64) -> (r: Vec<u64>)
    ensures
        r@ == remove_all(v@, x),
{
    let mut r: Vec<u64> = Vec::new();
    let mut i: usize = 0;
    while i < v.len()
        invariant
            i <= v@.len(),
            r@ == remove_all(v@.take(i as int), x),
        decreases v@.len() - i,
    {
        proof {
            assert(v@.take(i + 1).drop_last() =~= v@.take(i as int));
        }
        if v[i] != x {
            r.push(v[i]);
        }
        i = i + 1;
    }
    proof {
        assert(v@.take(i as int) =~= v@);
    }
    r
}

/// The scene graph and the changes queued since the last commit.
pub struct SceneObjects {
    scene_objects: HashMap<u64, SceneNode>,
    changes: Vec<SceneGraphChange>,
}

impl SceneObjects {
    /// The graph, by object id.
    pub closed spec fn spec_graph(&self) -> Map<u64, NodeView> {
        self.scene_objects@.map_values(|n: SceneNode| n@)
    }

    /// The queued changes, oldest first.
    pub closed spec fn spec_changes(&self) -> Seq<ChangeView> {
        change_views(self.changes@)
    }

    /// An empty graph with no queued change.
    pub fn new() -> (r: SceneObjects)
        ensures
            r.spec_graph() == Map::<u64, NodeView>::empty(),
            r.spec_changes() == Seq::<ChangeView>::empty(),
    {
        let r = SceneObjects { scene_objects: HashMap::new(), changes: Vec::new() };
        proof {
            assert(r.spec_graph() =~= Map::<u64, NodeView>::empty());
            assert(r.spec_changes() =~= Seq::<ChangeView>::empty());
        }
        r
    }

    /// Queues a change.
    fn queue(&mut self, c: SceneGraphChange)
        ensures
            final(self).spec_graph() == old(self).spec_graph(),
            final(self).spec_changes() == old(self).spec_changes().push(c@),
    {
        self.changes.push(c);
        proof {
            assert(self.spec_changes() =~= old(self).spec_changes().push(c@));
        }
    }

    /// Queues making `child` a child of `parent`.
    pub fn parent(&mut self, parent: u64, child: u64)
        ensures
            final(self).spec_graph() == old(self).spec_graph(),
            final(self).spec_changes() == old(self).spec_changes().push(ChangeView::Parent(parent, child)),
    {
        self.queue(SceneGraphChange::Parent(parent, child))
    }

    /// Queues the removal of `id`.
    pub fn remove(&mut self, id: u64)
        ensures
            final(self).spec_graph() == old(self).spec_graph(),
            final(self).spec_changes() == old(self).spec_changes().push(ChangeView::Remove(id)),
    {
        self.queue(SceneGraphChange::Remove(id))
    }

    /// Queues removing `child` from the children of `parent`.
    pub fn orphan(&mut self, parent: u64, child: u64)
        ensures
            final(self).spec_graph() == old(self).spec_graph(),
            final(self).spec_changes() == old(self).spec_changes().push(ChangeView::Orphan(parent, child)),
    {
        self.queue(SceneGraphChange::Orphan(parent, child))
    }

    /// Queues the insertion of `scene_object`.
    pub fn insert(&mut self, scene_object: SceneNode)
        ensures
            final(self).spec_graph() == old(self).spec_graph(),
            final(self).spec_changes() == old(self).spec_changes().push(ChangeView::Insert(scene_object@)),
    {
        self.queue(SceneGraphChange::Insert(scene_object))
    }

    /// Removes node `k` from the map and returns it.
    fn take_node(&mut self, k: u64) -> (r: SceneNode)
        requires
            old(self).spec_graph().contains_key(k),
        ensures
            r@ == old(self).spec_graph()[k],
            final(self).spec_graph() == old(self).spec_graph().remove(k),
            final(self).changes@ == old(self).changes@,
    {
        broadcast use vstd::std_specs::hash::group_hash_axioms;

        let r = self.scene_objects.remove(&k).unwrap();
        proof {
            assert(self.spec_graph() =~= old(self).spec_graph().remove(k));
        }
        r
    }

    /// Puts node `n` in the map under `k`.
    fn put_node(&mut self, k: u64, n: SceneNode) -> (r: bool)
        ensures
            final(self).spec_graph() == old(self).spec_graph().insert(k, n@),
            final(self).changes@ == old(self).changes@,
            r == old(self).spec_graph().contains_key(k),
    {
        broadcast use vstd::std_specs::hash::group_hash_axioms;

        let prev = self.scene_objects.insert(k, n);
        proof {
            assert(self.spec_graph() =~= old(self).spec_graph().insert(k, n@));
        }
        prev.is_some()
    }

    /// Applies one change.
    fn apply(&mut self, c: SceneGraphChange)
        requires
            change_applies(old(self).spec_graph(), c@),
        ensures
            final(self).spec_graph() == apply_change(old(self).spec_graph(), c@),
            final(self).changes@ == old(self).changes@,
    {
        let ghost m = self.spec_graph();
        match c {
            SceneGraphChange::Parent(parent_id, child_id) => {
                let mut pn = self.take_node(parent_id);
                pn.children.push(child_id);
                self.put_node(parent_id, pn);
                proof {
                    assert(self.spec_graph() =~= m.insert(
                        parent_id,
                        NodeView { children: m[parent_id].children.push(child_id), ..m[parent_id] },
                    ));
                }
                let ghost m1 = self.spec_graph();
                let mut cn = self.take_node(child_id);
                cn.parent_id = Some(parent_id);
                self.put_node(child_id, cn);
                proof {
                    assert(self.spec_graph() =~= m1.insert(
                        child_id,
                        NodeView { parent_id: Some(parent_id), ..m1[child_id] },
                    ));
                }
            },
            SceneGraphChange::Orphan(parent_id, child_id) => {
                let mut pn = self.take_node(parent_id);
                let kept = without(&pn.children, child_id);
                pn.children = kept;
                self.put_node(parent_id, pn);
                proof {
                    assert(self.spec_graph() =~= m.insert(
                        parent_id,
                        NodeView { children: remove_all(m[parent_id].children, child_id), ..m[parent_id] },
                    ));
                }
                let ghost m1 = self.spec_graph();
                let mut cn = self.take_node(child_id);
                cn.parent_id = None;
                self.put_node(child_id, cn);
                proof {
                    assert(self.spec_graph() =~= m1.insert(
                        child_id,
                        NodeView { parent_id: None, ..m1[child_id] },
                    ));
                }
            },
            SceneGraphChange::Insert(scene_object) => {
                let id = scene_object.id;
                match scene_object.parent_id {
                    Some(parent_id) => {
                        let mut pn = self.take_node(parent_id);
                        pn.children.push(id);
                        self.put_node(parent_id, pn);
                        proof {
                            assert(self.spec_graph() =~= m.insert(
                                parent_id,
                                NodeView { children: m[parent_id].children.push(id), ..m[parent_id] },
                            ));
                        }
                    },
                    None => {},
                }
                let ghost v = scene_object@;
                self.put_node(id, scene_object);
            },
            SceneGraphChange::Remove(id) => {
                self.take_node(id);
            },
        }
    }

    /// Applies the queued changes, in the order they were made, and empties
    /// the queue.
    pub fn commit_changes(&mut self)
        requires
            changes_apply(old(self).spec_graph(), old(self).spec_changes()),
        ensures
            final(self).spec_graph() == apply_changes(old(self).spec_graph(), old(self).spec_changes()),
            final(self).spec_changes() == Seq::<ChangeView>::empty(),
    {
        let ghost m0 = self.spec_graph();
        let ghost cs = self.spec_changes();
        let mut changes: Vec<SceneGraphChange> = Vec::new();
        std::mem::swap(&mut changes, &mut self.changes);
        let ghost n = changes@.len();
        proof {
            assert(cs.take(0) =~= Seq::<ChangeView>::empty());
            assert(change_views(changes@) =~= cs.subrange(0, n as int));
        }
        while changes.len() > 0
            invariant
                n == cs.len(),
                changes@.len() <= n,
                change_views(changes@) == cs.subrange(n - changes@.len(), n as int),
                self.spec_graph() == apply_changes(m0, cs.take(n - changes@.len())),
                changes_apply(m0, cs),
                self.changes@ == Seq::<SceneGraphChange>::empty(),
            decreases changes@.len(),
        {
            let ghost i = n - changes@.len();
            let ghost before = changes@;
            let c = changes.remove(0);
            proof {
                assert(change_views(before)[0] == c@);
                assert(cs[i] == c@);
                lemma_changes_apply_prefix(m0, cs, i + 1);
                assert(cs.take(i + 1).drop_last() =~= cs.take(i));
                assert(cs.take(i + 1).last() == cs[i]);
                assert(changes@ =~= before.subrange(1, before.len() as int));
                assert forall|k: int| 0 <= k < changes@.len() implies change_views(changes@)[k] == cs.subrange(
                    i + 1,
                    n as int,
                )[k] by {
                    assert(changes@[k] == before[k + 1]);
                    assert(change_views(before)[k + 1] == cs.subrange(i, n as int)[k + 1]);
                }
                assert(change_views(changes@) =~= cs.subrange(i + 1, n as int));
            }
            self.apply(c);
        }
        proof {
            assert(cs.take(n as int) =~= cs);
            assert(self.spec_changes() =~= Seq::<ChangeView>::empty());
        }
    }

    /// Whether object `k` is in the graph after the first `i` queued
    /// changes (see `present_after`).
    fn present_at(&self, k: u64, i: usize) -> (r: bool)
        requires
            i <= self.changes@.len(),
        ensures
            r == present_after(self.spec_graph().dom(), self.spec_changes(), i as int, k),
    {
        broadcast use vstd::std_specs::hash::group_hash_axioms;

        let ghost cs = self.spec_changes();
        let mut j = i;
        while j > 0
            invariant
                j <= i <= self.changes@.len(),
                cs == self.spec_changes(),
                present_after(self.spec_graph().dom(), cs, i as int, k) == present_after(
                    self.spec_graph().dom(),
                    cs,
                    j as int,
                    k,
                ),
            decreases j,
        {
            assert(cs[j - 1] == self.changes@[j - 1]@);
            match &self.changes[j - 1] {
                SceneGraphChange::Insert(n) => {
                    if n.id == k {
                        return true;
                    }
                },
                SceneGraphChange::Remove(id) => {
                    if *id == k {
                        return false;
                    }
                },
                _ => {},
            }
            j = j - 1;
        }
        let r = self.scene_objects.contains_key(&k);
        proof {
            assert(self.spec_graph().dom().contains(k) == self.scene_objects@.contains_key(k));
        }
        r
    }

    /// Whether the queued changes can be applied in turn (see
    /// `change_applies`): `commit_changes` needs them to.
    pub fn pending_changes_apply(&self) -> (r: bool)
        ensures
            r == changes_apply(self.spec_graph(), self.spec_changes()),
    {
        let ghost m = self.spec_graph();
        let ghost cs = self.spec_changes();
        let mut i: usize = 0;
        proof {
            assert(cs.take(0) =~= Seq::<ChangeView>::empty());
        }
        while i < self.changes.len()
            invariant
                m == self.spec_graph(),
                cs == self.spec_changes(),
                i <= self.changes@.len(),
                cs.len() == self.changes@.len(),
                changes_apply(m, cs.take(i as int)),
            decreases self.changes@.len() - i,
        {
            let ghost cur = apply_changes(m, cs.take(i as int));
            assert(cs[i as int] == self.changes@[i as int]@);
            let ok = match &self.changes[i] {
                SceneGraphChange::Parent(p, c) => self.present_at(*p, i) && self.present_at(*c, i),
                SceneGraphChange::Orphan(p, c) => self.present_at(*p, i) && self.present_at(*c, i),
                SceneGraphChange::Insert(n) => {
                    let parent_ok = match n.parent_id {
                        Some(p) => self.present_at(p, i),
                        None => true,
                    };
                    parent_ok && !self.present_at(n.id, i)
                },
                SceneGraphChange::Remove(id) => self.present_at(*id, i),
            };
            proof {
                assert forall|k: u64| cur.contains_key(k) == present_after(m.dom(), cs, i as int, k) by {
                    lemma_present_after(m, cs, i as int, k);
                }
                assert(ok == change_applies(cur, cs[i as int]));
                let next = cs.take(i + 1);
                assert(next.drop_last() =~= cs.take(i as int));
                assert(next.last() == cs[i as int]);
                if !ok {
                    if changes_apply(m, cs) {
                        lemma_changes_apply_prefix(m, cs, i + 1);
                    }
                }
            }
            if !ok {
                return false;
            }
            i = i + 1;
        }
        proof {
            assert(cs.take(i as int) =~= cs);
        }
        true
    }

    /// The node of object `id`, if it is in the graph.
    pub fn get(&self, id: u64) -> (r: Option<&SceneNode>)
        ensures
            match r {
                Some(n) => self.spec_graph().contains_key(id) && n@ == self.spec_graph()[id],
                None => !self.spec_graph().contains_key(id),
            },
    {
        broadcast use vstd::std_specs::hash::group_hash_axioms;

        self.scene_objects.get(&id)
    }
}

} // verus!
