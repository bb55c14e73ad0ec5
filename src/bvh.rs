use vstd::prelude::*;

verus! {

/// One side of a hierarchy node: an object, by its position in the sorted
/// object list, or another node of the layout, by its index.
#[derive(Clone, Copy, Debug)]
pub enum Child {
    Object(usize),
    Node(usize),
}

/// A node of a bounding-volume hierarchy over the objects at positions
/// `start .. end` of the object list.
#[derive(Clone, Copy, Debug)]
pub struct SpanNode {
    pub start: usize,
    pub end: usize,
    pub left: Child,
    pub right: Child,
}

/// The split point of a span of three or more objects: its median.
pub open spec fn mid_of(start: int, end: int) -> int {
    start + (end - start) / 2
}

/// Node `k` follows the splitting rule: one object is referenced by both
/// sides, two objects are one side each, and a longer span is split at its
/// median into two nodes of lower index.
pub open spec fn node_ok(nodes: Seq<SpanNode>, k: int) -> bool {
    let n = nodes[k];
    let span = n.end - n.start;
    &&& n.start < n.end
    &&& if span == 1 {
        n.left == Child::Object(n.start) && n.right == Child::Object(n.start)
    } else if span == 2 {
        n.left == Child::Object(n.start) && n.right == Child::Object((n.start + 1) as usize)
    } else {
        match (n.left, n.right) {
            (Child::Node(a), Child::Node(b)) => {
                &&& a < k
                &&& b < k
                &&& nodes[a as int].start == n.start
                &&& nodes[a as int].end == mid_of(n.start as int, n.end as int)
                &&& nodes[b as int].start == mid_of(n.start as int, n.end as int)
                &&& nodes[b as int].end == n.end
            },
            _ => false,
        }
    }
}

/// Number of nodes the splitting rule makes for a span of `span` objects.
pub open spec fn node_count(span: nat) -> nat
    decreases span,
{
    if span <= 2 {
        1
    } else {
        1 + node_count(span / 2) + node_count((span - span / 2) as nat)
    }
}

/// Every node of `nodes` follows the splitting rule.
pub open spec fn all_nodes_ok(nodes: Seq<SpanNode>) -> bool {
    forall|k: int| 0 <= k < nodes.len() ==> #[trigger] node_ok(nodes, k)
}

/// A hierarchy over `count` objects: none without objects; otherwise the last
/// node is the root and spans them all, and there is no node besides those
/// the splitting rule makes.
pub open spec fn layout_ok(nodes: Seq<SpanNode>, count: nat) -> bool {
    &&& all_nodes_ok(nodes)
    &&& nodes.len() == if count == 0 { 0 } else { node_count(count) }
    &&& count > 0 ==> nodes.last().start == 0 && nodes.last().end == count
}

/// The object positions reachable from node `k`.
pub open spec fn leaves(nodes: Seq<SpanNode>, k: int) -> Set<int>
    decreases k,
{
    if 0 <= k < nodes.len() {
        let n = nodes[k];
        let l = match n.left {
            Child::Object(i) => set![i as int],
            Child::Node(a) => if a < k {
                leaves(nodes, a as int)
            } else {
                Set::empty()
            },
        };
        let r = match n.right {
            Child::Object(i) => set![i as int],
            Child::Node(b) => if b < k {
                leaves(nodes, b as int)
            } else {
                Set::empty()
            },
        };
        l.union(r)
    } else {
        Set::empty()
    }
}

/// The positions `start .. end`.
pub open spec fn span_set(start: int, end: int) -> Set<int> {
    Set::new(|i: int| start <= i < end)
}

/// In a hierarchy that follows the splitting rule, the objects reachable from
/// a node are exactly those of its span: no object is lost and none is
/// shared with a sibling. With bounding boxes taken as unions over a span,
/// each node's box therefore encloses the box of every leaf below it.
pub proof fn lemma_leaves_cover_span(nodes: Seq<SpanNode>, k: int)
    requires
        all_nodes_ok(nodes),
        0 <= k < nodes.len(),
    ensures
        leaves(nodes, k) == span_set(nodes[k].start as int, nodes[k].end as int),
    decreases k,
{
    let n = nodes[k];
    assert(node_ok(nodes, k));
    let span = n.end - n.start;
    if span == 1 {
        assert(leaves(nodes, k) =~= span_set(n.start as int, n.end as int));
    } else if span == 2 {
        assert(leaves(nodes, k) =~= span_set(n.start as int, n.end as int));
    } else {
        match (n.left, n.right) {
            (Child::Node(a), Child::Node(b)) => {
                lemma_leaves_cover_span(nodes, a as int);
                lemma_leaves_cover_span(nodes, b as int);
                assert(leaves(nodes, k) =~= span_set(n.start as int, n.end as int));
            },
            _ => {},
        }
    }
}

/// The node structure of a bounding-volume hierarchy over a list of objects,
/// stored children first. Objects are referred to by position: before node
/// `k` is given its boxes, the positions of its span are sorted along the
/// node's longest axis, in order from the root down (from the last index to
/// the first).
pub struct BvhLayout {
    nodes: Vec<SpanNode>,
    count: usize,
}

impl BvhLayout {
    pub closed spec fn nodes_spec(&self) -> Seq<SpanNode> {
        self.nodes@
    }

    pub closed spec fn count_spec(&self) -> nat {
        self.count as nat
    }

    pub open spec fn wf(&self) -> bool {
        layout_ok(self.nodes_spec(), self.count_spec())
    }

    /// The hierarchy over `object_count` objects.
    pub fn new(object_count: usize) -> (r: Self)
        ensures
            r.wf(),
            r.count_spec() == object_count,
    {
        let mut nodes: Vec<SpanNode> = Vec::new();
        if object_count > 0 {
            Self::new_recursive(&mut nodes, 0, object_count);
        }
        BvhLayout { nodes, count: object_count }
    }

    /// Appends the nodes for the span `start .. end`, children first, and
    /// returns the index of the node for the whole span (the last one).
    pub fn new_recursive(nodes: &mut Vec<SpanNode>, start: usize, end: usize) -> (idx: usize)
        requires
            start < end,
            all_nodes_ok(old(nodes)@),
        ensures
            all_nodes_ok(final(nodes)@),
            final(nodes)@.len() == old(nodes)@.len() + node_count((end - start) as nat),
            idx == final(nodes)@.len() - 1,
            final(nodes)@[idx as int].start == start,
            final(nodes)@[idx as int].end == end,
            forall|i: int| 0 <= i < old(nodes)@.len() ==> #[trigger] final(nodes)@[i] == old(nodes)@[i],
        decreases end - start,
    {
        let ghost mut pre = nodes@;
        let span = end - start;
        if span == 1 {
            nodes.push(SpanNode { start, end, left: Child::Object(start), right: Child::Object(start) });
        } else if span == 2 {
            nodes.push(
                SpanNode { start, end, left: Child::Object(start), right: Child::Object(start + 1) },
            );
        } else {
            let mid = start + span / 2;
            assert(mid - start == span / 2 && end - mid == span - span / 2);
            let a = Self::new_recursive(nodes, start, mid);
            let ghost after_left = nodes@;
            let b = Self::new_recursive(nodes, mid, end);
            proof {
                pre = nodes@;
            }
            nodes.push(SpanNode { start, end, left: Child::Node(a), right: Child::Node(b) });
            assert(nodes@[a as int] == after_left[a as int]);
        }
        let idx = nodes.len() - 1;
        assert forall|k: int| 0 <= k < nodes@.len() implies #[trigger] node_ok(nodes@, k) by {
            if k < idx {
                assert(node_ok(pre, k));
                assert(pre[k] == nodes@[k]);
                match (pre[k].left, pre[k].right) {
                    (Child::Node(a), Child::Node(b)) => {
                        if a < k && b < k {
                            assert(pre[a as int] == nodes@[a as int]);
                            assert(pre[b as int] == nodes@[b as int]);
                        }
                    },
                    _ => {},
                }
            }
        }
        idx
    }

    /// From the root every object is reachable, and nothing else.
    pub proof fn lemma_root_reaches_all(&self)
        requires
            self.wf(),
            self.count_spec() > 0,
        ensures
            leaves(self.nodes_spec(), self.nodes_spec().len() - 1) == span_set(
                0,
                self.count_spec() as int,
            ),
    {
        lemma_leaves_cover_span(self.nodes_spec(), self.nodes_spec().len() - 1);
    }

    /// Number of objects the hierarchy is over.
    pub fn object_count(&self) -> (r: usize)
        ensures
            r == self.count_spec(),
    {
        self.count
    }

    /// The nodes, children before parents.
    pub fn nodes(&self) -> (r: &Vec<SpanNode>)
        ensures
            r@ == self.nodes_spec(),
    {
        &self.nodes
    }

    /// The index of the root node; `None` when there are no objects, so that
    /// nothing can be hit.
    pub fn root(&self) -> (r: Option<usize>)
        requires
            self.wf(),
        ensures
            r.is_none() <==> self.count_spec() == 0,
            r.is_some() ==> r.unwrap() == self.nodes_spec().len() - 1,
    {
        if self.nodes.len() == 0 {
            None
        } else {
            Some(self.nodes.len() - 1)
        }
    }
}

} // verus!
