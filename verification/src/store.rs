//! The node store: the nodes in the order in which they were added, the
//! identifier that the next node will get, and the selection.
//!
//! Every identifier in the store is below the next identifier.  The store
//! keeps this at all times, so a created node never shares its identifier
//! with a node that is already there.

use crate::geometry::{Offset, Point};
use crate::node::{clamp_range, clamped_range, views, Node, NodeType, NodeView, MAX_RANGE, MIN_RANGE};
use crate::random::draw_between;
use vstd::prelude::*;

verus! {

/// Why a set of nodes was not taken over.
#[derive(Clone, Copy, Debug, PartialEq, Eq, Structural)]
pub enum StoreError {
    /// A node holds the largest identifier there is, so no identifier is
    /// left for the node that would be created next.
    IdsExhausted,
}

/// The nodes and the id allocator.
#[derive(Debug)]
pub struct NodeStore {
    nodes: Vec<Node>,
    next_id: usize,
    selected: Option<usize>,
}

/// The mathematical value of a `NodeStore`.
pub struct StoreView {
    /// The nodes, oldest first.
    pub nodes: Seq<NodeView>,
    /// The identifier that the next created node gets.
    pub next_id: nat,
    /// The identifier of the node shown in the inspector, if any.
    pub selected: Option<nat>,
}

/// An optional identifier as a mathematical value.
pub open spec fn id_view(id: Option<usize>) -> Option<nat> {
    match id {
        Some(i) => Some(i as nat),
        None => None,
    }
}

/// The largest identifier among `nodes`, or 0 when there is none.
pub open spec fn max_id(nodes: Seq<NodeView>) -> nat
    decreases nodes.len(),
{
    if nodes.len() == 0 {
        0
    } else {
        let before = max_id(nodes.drop_last());
        if nodes.last().id > before {
            nodes.last().id
        } else {
            before
        }
    }
}

/// Whether some node of `nodes` has the identifier `id`.
pub open spec fn has_id(nodes: Seq<NodeView>, id: nat) -> bool {
    exists|i: int| 0 <= i < nodes.len() && (#[trigger] nodes[i]).id == id
}

/// Whether `index` is the place of the first node with the identifier `id`.
pub open spec fn is_first_with_id(nodes: Seq<NodeView>, id: nat, index: int) -> bool {
    &&& 0 <= index < nodes.len()
    &&& nodes[index].id == id
    &&& forall|j: int| 0 <= j < index ==> (#[trigger] nodes[j]).id != id
}

/// Whether no two nodes share an identifier.
pub open spec fn distinct_ids(nodes: Seq<NodeView>) -> bool {
    forall|i: int, j: int|
        0 <= i < j < nodes.len() ==> (#[trigger] nodes[i]).id != (#[trigger] nodes[j]).id
}

/// `node` moved by `by`.
pub open spec fn shifted_node(node: NodeView, by: Offset) -> NodeView {
    NodeView { position: node.position.spec_shifted(by), ..node }
}

impl StoreView {
    /// The store of a new canvas.
    pub open spec fn empty() -> StoreView {
        StoreView { nodes: Seq::empty(), next_id: 0, selected: None }
    }

    /// Every identifier in the store is below the next identifier.
    pub open spec fn valid(self) -> bool {
        forall|i: int| 0 <= i < self.nodes.len() ==> (#[trigger] self.nodes[i]).id < self.next_id
    }

    /// The store after a node was created at `position` with coverage `range`.
    pub open spec fn create(self, position: Point, range: nat) -> StoreView {
        StoreView {
            nodes: self.nodes.push(NodeView::fresh(self.next_id, position, range)),
            next_id: self.next_id + 1,
            ..self
        }
    }

    /// The store after its nodes were replaced by `nodes`.  The next
    /// identifier is one more than the largest among them, and 1 when there
    /// is none.
    pub open spec fn replace_all(self, nodes: Seq<NodeView>) -> StoreView {
        StoreView { nodes, next_id: max_id(nodes) + 1, ..self }
    }

    /// The store with another selection.
    pub open spec fn select(self, id: Option<nat>) -> StoreView {
        StoreView { selected: id, ..self }
    }

    /// The store with the node at `index` replaced by `node`; unchanged when
    /// there is no such place.
    pub open spec fn with_node_at(self, index: int, node: NodeView) -> StoreView {
        if 0 <= index < self.nodes.len() {
            StoreView { nodes: self.nodes.update(index, node), ..self }
        } else {
            self
        }
    }

    /// The store with the node at `index` moved to `position`.
    pub open spec fn place(self, index: int, position: Point) -> StoreView {
        self.with_node_at(index, NodeView { position, ..self.nodes[index] })
    }

    /// The store with the first node that has the identifier `id` replaced by
    /// what `change` makes of it.  Every other node stays as it is, so
    /// nothing changes when no node has that identifier.
    pub open spec fn edit(self, id: nat, change: spec_fn(NodeView) -> NodeView) -> StoreView {
        StoreView {
            nodes: Seq::new(
                self.nodes.len(),
                |i: int|
                    if is_first_with_id(self.nodes, id, i) {
                        change(self.nodes[i])
                    } else {
                        self.nodes[i]
                    },
            ),
            ..self
        }
    }

    /// The store with node `id` labelled `name`.
    pub open spec fn with_name(self, id: nat, name: Seq<char>) -> StoreView {
        self.edit(id, |n: NodeView| NodeView { name, ..n })
    }

    /// The store with node `id` in the role `node_type`.
    pub open spec fn with_node_type(self, id: nat, node_type: NodeType) -> StoreView {
        self.edit(id, |n: NodeView| NodeView { node_type, ..n })
    }

    /// The store with the coverage of node `id` set to the allowed range
    /// nearest to `range`.
    pub open spec fn with_range(self, id: nat, range: nat) -> StoreView {
        self.edit(id, |n: NodeView| NodeView { range: clamp_range(range), ..n })
    }

    /// The store with node `id` at `position`.
    pub open spec fn with_position(self, id: nat, position: Point) -> StoreView {
        self.edit(id, |n: NodeView| NodeView { position, ..n })
    }

    /// The store with every node moved by `by`.
    pub open spec fn shift_all(self, by: Offset) -> StoreView {
        StoreView { nodes: self.nodes.map_values(|n: NodeView| shifted_node(n, by)), ..self }
    }

    /// The store after one node was created for each entry of `requests`, in
    /// order.  An entry gives the position and the coverage of its node.
    pub open spec fn create_each(self, requests: Seq<(Point, nat)>) -> StoreView
        decreases requests.len(),
    {
        if requests.len() == 0 {
            self
        } else {
            let before = self.create_each(requests.drop_last());
            before.create(requests.last().0, requests.last().1)
        }
    }

    /// The identifier that the creation for entry `k` of `requests` returns.
    pub open spec fn created_id(self, requests: Seq<(Point, nat)>, k: int) -> nat {
        self.create_each(requests.take(k)).next_id
    }
}

impl View for NodeStore {
    type V = StoreView;

    closed spec fn view(&self) -> StoreView {
        StoreView {
            nodes: views(self.nodes@),
            next_id: self.next_id as nat,
            selected: id_view(self.selected),
        }
    }
}

/// No identifier among `nodes` is above `max_id(nodes)`, and when there are
/// nodes, one of them has it.
pub proof fn lemma_max_id(nodes: Seq<NodeView>)
    ensures
        forall|i: int| 0 <= i < nodes.len() ==> (#[trigger] nodes[i]).id <= max_id(nodes),
        nodes.len() > 0 ==> has_id(nodes, max_id(nodes)),
    decreases nodes.len(),
{
    if nodes.len() > 0 {
        let front = nodes.drop_last();
        lemma_max_id(front);
        assert forall|i: int| 0 <= i < nodes.len() implies (#[trigger] nodes[i]).id <= max_id(
            nodes,
        ) by {
            if i < front.len() {
                assert(front[i] == nodes[i]);
            }
        }
        if nodes.last().id > max_id(front) || front.len() == 0 {
            assert(nodes[nodes.len() - 1].id == max_id(nodes));
        } else {
            let i = choose|i: int| 0 <= i < front.len() && (#[trigger] front[i]).id == max_id(front);
            assert(nodes[i].id == max_id(nodes));
        }
    }
}

/// An identifier has at most one first place.
pub proof fn lemma_first_is_unique(nodes: Seq<NodeView>, id: nat, index: int, other: int)
    requires
        is_first_with_id(nodes, id, index),
        is_first_with_id(nodes, id, other),
    ensures
        index == other,
{
}

/// Editing the node with the identifier `id` changes the node at its first
/// place and no other.
pub proof fn lemma_edit_changes_first(
    store: StoreView,
    id: nat,
    change: spec_fn(NodeView) -> NodeView,
    index: int,
)
    requires
        is_first_with_id(store.nodes, id, index),
    ensures
        store.edit(id, change) == store.with_node_at(index, change(store.nodes[index])),
{
    assert forall|i: int| 0 <= i < store.nodes.len() && i != index implies !is_first_with_id(
        store.nodes,
        id,
        i,
    ) by {
        if is_first_with_id(store.nodes, id, i) {
            lemma_first_is_unique(store.nodes, id, index, i);
        }
    }
    assert(store.edit(id, change).nodes =~= store.nodes.update(index, change(store.nodes[index])));
}

/// Editing a node that is not there changes nothing.
pub proof fn lemma_edit_without_node(
    store: StoreView,
    id: nat,
    change: spec_fn(NodeView) -> NodeView,
)
    requires
        !has_id(store.nodes, id),
    ensures
        store.edit(id, change) == store,
{
    assert(store.edit(id, change).nodes =~= store.nodes);
}

impl NodeStore {
    #[verifier::type_invariant]
    spec fn ids_below_next(self) -> bool {
        forall|i: int| 0 <= i < self.nodes.len() ==> (#[trigger] self.nodes[i]).id < self.next_id
    }

    /// The store of a new canvas: no nodes, nothing selected, and 0 as the
    /// first identifier.
    pub fn new() -> (store: NodeStore)
        ensures
            store@ == StoreView::empty(),
    {
        let store = NodeStore { nodes: Vec::new(), next_id: 0, selected: None };
        assert(store@.nodes =~= Seq::empty());
        store
    }

    /// The nodes, oldest first.
    pub fn nodes(&self) -> (nodes: &Vec<Node>)
        ensures
            views(nodes@) == self@.nodes,
            self@.valid(),
    {
        proof {
            use_type_invariant(self);
        }
        &self.nodes
    }

    /// The number of nodes.
    pub fn len(&self) -> (count: usize)
        ensures
            count == self@.nodes.len(),
    {
        self.nodes.len()
    }

    /// The identifier that the next created node gets.
    pub fn next_id(&self) -> (id: usize)
        ensures
            id == self@.next_id,
            self@.valid(),
    {
        proof {
            use_type_invariant(self);
        }
        self.next_id
    }

    /// The identifier of the selected node, if any.
    pub fn selected(&self) -> (id: Option<usize>)
        ensures
            id_view(id) == self@.selected,
    {
        self.selected
    }

    /// Whether the identifiers have run out, so that no node can be created.
    pub fn ids_exhausted(&self) -> (exhausted: bool)
        ensures
            exhausted == (self@.next_id >= usize::MAX),
    {
        self.next_id == usize::MAX
    }

    /// Finds the first node with the identifier `id`.
    pub fn index_of(&self, id: usize) -> (found: Option<usize>)
        ensures
            match found {
                Some(index) => is_first_with_id(self@.nodes, id as nat, index as int),
                None => !has_id(self@.nodes, id as nat),
            },
    {
        let mut index: usize = 0;
        while index < self.nodes.len()
            invariant
                index <= self.nodes.len(),
                forall|j: int| 0 <= j < index ==> (#[trigger] self@.nodes[j]).id != id,
            decreases self.nodes.len() - index,
        {
            if self.nodes[index].id == id {
                return Some(index);
            }
            index = index + 1;
        }
        None
    }

    /// Finds the node that the inspector shows: the first node with the
    /// selected identifier.  There is none when nothing is selected or when
    /// the selected node is no longer there.
    pub fn selected_index(&self) -> (found: Option<usize>)
        ensures
            match found {
                Some(index) => self@.selected matches Some(id) && is_first_with_id(
                    self@.nodes,
                    id,
                    index as int,
                ),
                None => self@.selected matches Some(id) ==> !has_id(self@.nodes, id),
            },
    {
        match self.selected {
            Some(id) => self.index_of(id),
            None => None,
        }
    }

    /// Creates a node at `position` with coverage `range`: labelled "Node",
    /// an endpoint, with the next identifier, added behind the others.
    /// Returns the identifier.
    pub fn create_with_range(&mut self, position: Point, range: u32) -> (id: usize)
        requires
            old(self)@.next_id < usize::MAX,
        ensures
            final(self)@ == old(self)@.create(position, range as nat),
            id == old(self)@.next_id,
            final(self)@.valid(),
    {
        proof {
            use_type_invariant(&*self);
        }
        let id = self.next_id;
        let mut nodes: Vec<Node> = Vec::new();
        std::mem::swap(&mut nodes, &mut self.nodes);
        nodes.push(Node::fresh(id, position, range));
        self.next_id = id + 1;
        self.nodes = nodes;
        assert(self@.nodes =~= old(self)@.nodes.push(
            NodeView::fresh(id as nat, position, range as nat),
        ));
        id
    }

    /// Creates a node at `position` whose coverage is drawn at random from
    /// `MIN_RANGE..=MAX_RANGE`.  Returns the identifier.
    pub fn create(&mut self, position: Point) -> (id: usize)
        requires
            old(self)@.next_id < usize::MAX,
        ensures
            exists|range: nat|
                MIN_RANGE <= range <= MAX_RANGE && final(self)@ == #[trigger] old(self)@.create(
                    position,
                    range,
                ),
            id == old(self)@.next_id,
            final(self)@.valid(),
    {
        let range = draw_between(MIN_RANGE, MAX_RANGE);
        self.create_with_range(position, range)
    }

    /// Records which node, if any, the inspector shows.
    pub fn set_selected(&mut self, id: Option<usize>)
        ensures
            final(self)@ == old(self)@.select(id_view(id)),
    {
        proof {
            use_type_invariant(&*self);
        }
        self.selected = id;
    }

    /// Replaces the nodes by `nodes`, in their order, and sets the next
    /// identifier to one more than the largest among them (1 when there is
    /// none).  The selection stays.  Nothing changes when a node holds the
    /// largest identifier there is.
    pub fn replace_all(&mut self, nodes: Vec<Node>) -> (outcome: Result<(), StoreError>)
        ensures
            match outcome {
                Ok(()) => {
                    &&& max_id(views(nodes@)) < usize::MAX
                    &&& final(self)@ == old(self)@.replace_all(views(nodes@))
                },
                Err(e) => {
                    &&& e == StoreError::IdsExhausted
                    &&& max_id(views(nodes@)) == usize::MAX
                    &&& final(self)@ == old(self)@
                },
            },
            final(self)@.valid(),
    {
        proof {
            use_type_invariant(&*self);
        }
        let largest = largest_id(&nodes);
        if largest == usize::MAX {
            return Err(StoreError::IdsExhausted);
        }
        proof {
            lemma_max_id(views(nodes@));
            assert forall|i: int| 0 <= i < nodes.len() implies (#[trigger] nodes[i]).id
                <= largest by {
                assert(views(nodes@)[i].id == nodes[i].id);
            }
        }
        *self = NodeStore { nodes, next_id: largest + 1, selected: self.selected };
        Ok(())
    }

    /// A copy of the nodes, oldest first, as it is written out.
    pub fn snapshot(&self) -> (copy: Vec<Node>)
        ensures
            views(copy@) == self@.nodes,
    {
        let mut copy: Vec<Node> = Vec::new();
        let mut index: usize = 0;
        while index < self.nodes.len()
            invariant
                index <= self.nodes.len(),
                copy@ == self.nodes@.take(index as int),
            decreases self.nodes.len() - index,
        {
            copy.push(self.nodes[index].clone());
            index = index + 1;
        }
        copy
    }
}

impl NodeStore {
    /// Moves the node at `index` to `position`.  Returns whether there is
    /// such a node; nothing changes when there is none.
    pub fn place(&mut self, index: usize, position: Point) -> (placed: bool)
        ensures
            final(self)@ == old(self)@.place(index as int, position),
            placed == (index < old(self)@.nodes.len()),
    {
        proof {
            use_type_invariant(&*self);
        }
        if index >= self.nodes.len() {
            return false;
        }
        let mut nodes: Vec<Node> = Vec::new();
        std::mem::swap(&mut nodes, &mut self.nodes);
        nodes[index].position = position;
        self.nodes = nodes;
        assert(self@.nodes =~= old(self)@.place(index as int, position).nodes);
        true
    }

    /// Moves the first node with the identifier `id` to `position`.  Returns
    /// whether there is such a node; nothing changes when there is none.
    pub fn set_position(&mut self, id: usize, position: Point) -> (found: bool)
        ensures
            final(self)@ == old(self)@.with_position(id as nat, position),
            found == has_id(old(self)@.nodes, id as nat),
    {
        match self.index_of(id) {
            Some(index) => {
                proof {
                    lemma_edit_changes_first(
                        self@,
                        id as nat,
                        |n: NodeView| NodeView { position, ..n },
                        index as int,
                    );
                }
                self.place(index, position)
            },
            None => {
                proof {
                    lemma_edit_without_node(
                        self@,
                        id as nat,
                        |n: NodeView| NodeView { position, ..n },
                    );
                }
                false
            },
        }
    }

    /// Labels the first node with the identifier `id`.  Returns whether there
    /// is such a node; nothing changes when there is none.
    pub fn set_name(&mut self, id: usize, name: String) -> (found: bool)
        ensures
            final(self)@ == old(self)@.with_name(id as nat, name@),
            found == has_id(old(self)@.nodes, id as nat),
    {
        proof {
            use_type_invariant(&*self);
        }
        match self.index_of(id) {
            Some(index) => {
                let ghost label = name@;
                proof {
                    lemma_edit_changes_first(
                        self@,
                        id as nat,
                        |n: NodeView| NodeView { name: label, ..n },
                        index as int,
                    );
                }
                let mut nodes: Vec<Node> = Vec::new();
                std::mem::swap(&mut nodes, &mut self.nodes);
                nodes[index].name = name;
                self.nodes = nodes;
                assert(self@.nodes =~= old(self)@.with_name(id as nat, label).nodes);
                true
            },
            None => {
                proof {
                    let label = name@;
                    lemma_edit_without_node(
                        self@,
                        id as nat,
                        |n: NodeView| NodeView { name: label, ..n },
                    );
                }
                false
            },
        }
    }

    /// Gives the first node with the identifier `id` the role `node_type`.
    /// Returns whether there is such a node; nothing changes when there is
    /// none.
    pub fn set_node_type(&mut self, id: usize, node_type: NodeType) -> (found: bool)
        ensures
            final(self)@ == old(self)@.with_node_type(id as nat, node_type),
            found == has_id(old(self)@.nodes, id as nat),
    {
        proof {
            use_type_invariant(&*self);
        }
        match self.index_of(id) {
            Some(index) => {
                proof {
                    lemma_edit_changes_first(
                        self@,
                        id as nat,
                        |n: NodeView| NodeView { node_type, ..n },
                        index as int,
                    );
                }
                let mut nodes: Vec<Node> = Vec::new();
                std::mem::swap(&mut nodes, &mut self.nodes);
                nodes[index].node_type = node_type;
                self.nodes = nodes;
                assert(self@.nodes =~= old(self)@.with_node_type(id as nat, node_type).nodes);
                true
            },
            None => {
                proof {
                    lemma_edit_without_node(
                        self@,
                        id as nat,
                        |n: NodeView| NodeView { node_type, ..n },
                    );
                }
                false
            },
        }
    }

    /// Sets the coverage of the first node with the identifier `id` to the
    /// range in `MIN_RANGE..=MAX_RANGE` nearest to `range`, as the editing
    /// control does.  Returns whether there is such a node; nothing changes
    /// when there is none.
    pub fn set_range(&mut self, id: usize, range: u32) -> (found: bool)
        ensures
            final(self)@ == old(self)@.with_range(id as nat, range as nat),
            found == has_id(old(self)@.nodes, id as nat),
    {
        proof {
            use_type_invariant(&*self);
        }
        match self.index_of(id) {
            Some(index) => {
                proof {
                    lemma_edit_changes_first(
                        self@,
                        id as nat,
                        |n: NodeView| NodeView { range: clamp_range(range as nat), ..n },
                        index as int,
                    );
                }
                let mut nodes: Vec<Node> = Vec::new();
                std::mem::swap(&mut nodes, &mut self.nodes);
                nodes[index].range = clamped_range(range);
                self.nodes = nodes;
                assert(self@.nodes =~= old(self)@.with_range(id as nat, range as nat).nodes);
                true
            },
            None => {
                proof {
                    lemma_edit_without_node(
                        self@,
                        id as nat,
                        |n: NodeView| NodeView { range: clamp_range(range as nat), ..n },
                    );
                }
                false
            },
        }
    }

    /// Moves every node by `by`.
    pub fn shift_all(&mut self, by: Offset)
        ensures
            final(self)@ == old(self)@.shift_all(by),
    {
        proof {
            use_type_invariant(&*self);
        }
        let mut nodes: Vec<Node> = Vec::new();
        std::mem::swap(&mut nodes, &mut self.nodes);
        let ghost before = nodes@;
        let mut index: usize = 0;
        while index < nodes.len()
            invariant
                index <= nodes.len(),
                nodes.len() == before.len(),
                forall|j: int|
                    0 <= j < index ==> (#[trigger] nodes[j])@ == shifted_node(before[j]@, by),
                forall|j: int| index <= j < nodes.len() ==> #[trigger] nodes[j] == before[j],
            decreases nodes.len() - index,
        {
            let moved = nodes[index].position.shifted(by);
            nodes[index].position = moved;
            index = index + 1;
        }
        self.nodes = nodes;
        assert(self@.nodes =~= old(self)@.shift_all(by).nodes);
    }
}

/// The largest identifier among `nodes`, or 0 when there is none.
fn largest_id(nodes: &Vec<Node>) -> (largest: usize)
    ensures
        largest == max_id(views(nodes@)),
{
    let mut largest: usize = 0;
    let mut index: usize = 0;
    while index < nodes.len()
        invariant
            index <= nodes.len(),
            largest == max_id(views(nodes@).take(index as int)),
        decreases nodes.len() - index,
    {
        proof {
            let upto = views(nodes@).take(index + 1);
            assert(upto.drop_last() =~= views(nodes@).take(index as int));
        }
        if nodes[index].id > largest {
            largest = nodes[index].id;
        }
        index = index + 1;
    }
    assert(views(nodes@).take(index as int) =~= views(nodes@));
    largest
}

/// Whether two sequences of nodes have the same identifiers at the same
/// places.
pub open spec fn same_ids(a: Seq<NodeView>, b: Seq<NodeView>) -> bool {
    &&& a.len() == b.len()
    &&& forall|i: int| 0 <= i < a.len() ==> (#[trigger] a[i]).id == b[i].id
}

/// Creating nodes one after another hands out consecutive identifiers,
/// starting with the next identifier of the store.
pub proof fn lemma_create_each(store: StoreView, requests: Seq<(Point, nat)>)
    ensures
        store.create_each(requests).next_id == store.next_id + requests.len(),
        store.create_each(requests).nodes.len() == store.nodes.len() + requests.len(),
        store.create_each(requests).selected == store.selected,
        forall|i: int|
            0 <= i < store.nodes.len() ==> #[trigger] store.create_each(requests).nodes[i]
                == store.nodes[i],
        forall|k: int|
            0 <= k < requests.len() ==> #[trigger] store.create_each(requests).nodes[store.nodes.len()
                + k] == NodeView::fresh(store.next_id + k as nat, requests[k].0, requests[k].1),
        store.valid() ==> store.create_each(requests).valid(),
    decreases requests.len(),
{
    if requests.len() > 0 {
        lemma_create_each(store, requests.drop_last());
    }
}

/// In any sequence of creations, the identifiers that are returned increase
/// strictly in call order, so they are pairwise distinct.
pub proof fn lemma_created_ids_increase(
    store: StoreView,
    requests: Seq<(Point, nat)>,
    j: int,
    k: int,
)
    requires
        0 <= j < k < requests.len(),
    ensures
        store.created_id(requests, j) < store.created_id(requests, k),
        store.created_id(requests, j) != store.created_id(requests, k),
        store.created_id(requests, j) == store.next_id + j,
        store.created_id(requests, k) == store.next_id + k,
{
    lemma_create_each(store, requests.take(j));
    lemma_create_each(store, requests.take(k));
}

/// A created node never shares its identifier with a node that is already
/// there: identifiers that were distinct before a creation are distinct
/// after it.
pub proof fn lemma_create_keeps_ids_distinct(store: StoreView, position: Point, range: nat)
    requires
        store.valid(),
        distinct_ids(store.nodes),
    ensures
        store.create(position, range).valid(),
        distinct_ids(store.create(position, range).nodes),
{
}

/// After the nodes were replaced, the next creation returns an identifier
/// above every identifier among the new nodes; when there are no new nodes
/// it returns 1.
pub proof fn lemma_create_after_replace_all(
    store: StoreView,
    nodes: Seq<NodeView>,
    position: Point,
    range: nat,
)
    ensures
        ({
            let replaced = store.replace_all(nodes);
            let created = replaced.create(position, range);
            let id = replaced.next_id;
            &&& replaced.valid()
            &&& created.nodes.last().id == id
            &&& forall|i: int| 0 <= i < nodes.len() ==> (#[trigger] nodes[i]).id < id
            &&& id == max_id(nodes) + 1
            &&& nodes.len() == 0 ==> id == 1
        }),
{
    lemma_max_id(nodes);
}

/// Replacing the nodes of a store by a copy of themselves gives back every
/// node, field for field and in the same order, and an allocator that still
/// lies above every identifier.
pub proof fn lemma_snapshot_restores(store: StoreView)
    requires
        store.valid(),
    ensures
        store.replace_all(store.nodes).nodes == store.nodes,
        store.replace_all(store.nodes).selected == store.selected,
        store.replace_all(store.nodes).valid(),
        store.replace_all(store.nodes).next_id <= store.next_id || store.nodes.len() == 0,
{
    lemma_max_id(store.nodes);
}

/// Editing a node leaves every identifier where it is, as long as the edit
/// itself keeps the identifier: the store stays valid and distinct
/// identifiers stay distinct.
pub proof fn lemma_edit_keeps_ids(store: StoreView, id: nat, change: spec_fn(NodeView) -> NodeView)
    requires
        forall|n: NodeView| (#[trigger] change(n)).id == n.id,
    ensures
        same_ids(store.nodes, store.edit(id, change).nodes),
        store.valid() ==> store.edit(id, change).valid(),
        distinct_ids(store.nodes) ==> distinct_ids(store.edit(id, change).nodes),
{
}

/// Moving one node leaves every identifier where it is.
pub proof fn lemma_place_keeps_ids(store: StoreView, index: int, position: Point)
    ensures
        same_ids(store.nodes, store.place(index, position).nodes),
        store.valid() ==> store.place(index, position).valid(),
        distinct_ids(store.nodes) ==> distinct_ids(store.place(index, position).nodes),
{
}

/// Shifting all nodes leaves every identifier where it is.
pub proof fn lemma_shift_keeps_ids(store: StoreView, by: Offset)
    ensures
        same_ids(store.nodes, store.shift_all(by).nodes),
        store.valid() ==> store.shift_all(by).valid(),
        distinct_ids(store.nodes) ==> distinct_ids(store.shift_all(by).nodes),
{
}

} // verus!
