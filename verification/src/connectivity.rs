//! The rule that decides which nodes are linked.
//!
//! Two nodes with different identifiers are linked when at most one of them
//! is an endpoint and the distance between them is no more than the sum of
//! their scaled ranges.  The comparison is made on squares, and both sides
//! are multiplied by the square of `STEPS_PER_UNIT` so that it is exact in
//! integers.

use crate::geometry::lemma_dist_sq_symmetric;
use crate::node::{views, Node, NodeType, NodeView};
use crate::scale::{scaled_length, Scale, STEPS_PER_UNIT};
use vstd::prelude::*;

verus! {

/// A link between two nodes of a sequence, given by their positions in the
/// sequence, the earlier one first.
#[derive(Clone, Copy, Debug, PartialEq, Eq, Structural)]
pub struct Edge {
    pub first: usize,
    pub second: usize,
}

/// Whether both nodes are endpoints.  Endpoints never link to each other.
pub open spec fn both_endpoints(a: NodeView, b: NodeView) -> bool {
    a.node_type == NodeType::Endpoint && b.node_type == NodeType::Endpoint
}

/// The sum of the two scaled ranges, in twentieths of a canvas unit.
pub open spec fn reach(a: NodeView, b: NodeView, steps: nat) -> nat {
    scaled_length(a.range, steps) + scaled_length(b.range, steps)
}

/// Whether the squared distance between the nodes is at most the square of
/// the sum of their scaled ranges.
pub open spec fn within_reach(a: NodeView, b: NodeView, steps: nat) -> bool {
    let sum = reach(a, b, steps);
    STEPS_PER_UNIT * STEPS_PER_UNIT * a.position.dist_sq(b.position) <= sum * sum
}

/// The link rule.
pub open spec fn linked(a: NodeView, b: NodeView, steps: nat) -> bool {
    &&& a.id != b.id
    &&& !both_endpoints(a, b)
    &&& within_reach(a, b, steps)
}

/// Whether `e` names two linked nodes of `nodes`, the earlier one first.
pub open spec fn is_edge(nodes: Seq<NodeView>, steps: nat, e: Edge) -> bool {
    &&& e.first < e.second < nodes.len()
    &&& linked(nodes[e.first as int], nodes[e.second as int], steps)
}

/// The order in which edges are listed: by the first node, then by the second.
pub open spec fn precedes(a: Edge, b: Edge) -> bool {
    a.first < b.first || (a.first == b.first && a.second < b.second)
}

/// Decides the link rule for two nodes at the given scale.
pub fn is_linked(a: &Node, b: &Node, scale: &Scale) -> (answer: bool)
    ensures
        answer == linked(a@, b@, scale@),
{
    if a.id == b.id {
        return false;
    }
    if a.node_type == NodeType::Endpoint && b.node_type == NodeType::Endpoint {
        return false;
    }
    let steps = scale.steps();
    let distance: u128 = a.position.distance_squared(b.position);
    let sum: u128 = scale.apply(a.range) as u128 + scale.apply(b.range) as u128;
    proof {
        assert(a.range * steps <= 0xffff_ffff * 100) by (nonlinear_arith)
            requires
                a.range <= 0xffff_ffff,
                steps <= 100,
        ;
        assert(b.range * steps <= 0xffff_ffff * 100) by (nonlinear_arith)
            requires
                b.range <= 0xffff_ffff,
                steps <= 100,
        ;
        assert(sum * sum <= u128::MAX) by (nonlinear_arith)
            requires
                sum <= 0xffff_ffff * 200,
        ;
    }
    let square: u128 = STEPS_PER_UNIT as u128 * STEPS_PER_UNIT as u128;
    square * distance <= sum * sum
}

/// Lists the links among `nodes` at the given scale: every pair of linked
/// nodes once, the earlier node first, ordered by the first node and then by
/// the second.
pub fn edges(nodes: &Vec<Node>, scale: &Scale) -> (found: Vec<Edge>)
    ensures
        forall|k: int| 0 <= k < found.len() ==> is_edge(views(nodes@), scale@, #[trigger] found[k]),
        forall|e: Edge| #[trigger] is_edge(views(nodes@), scale@, e) ==> found@.contains(e),
        forall|k: int, l: int|
            0 <= k < l < found.len() ==> precedes(#[trigger] found[k], #[trigger] found[l]),
{
    let mut found: Vec<Edge> = Vec::new();
    let count = nodes.len();
    let mut i: usize = 0;
    while i < count
        invariant
            count == nodes.len(),
            i <= count,
            forall|k: int|
                0 <= k < found.len() ==> is_edge(views(nodes@), scale@, #[trigger] found[k]),
            forall|k: int| 0 <= k < found.len() ==> (#[trigger] found[k]).first < i,
            forall|e: Edge|
                #[trigger] is_edge(views(nodes@), scale@, e) && e.first < i ==> found@.contains(e),
            forall|k: int, l: int|
                0 <= k < l < found.len() ==> precedes(#[trigger] found[k], #[trigger] found[l]),
        decreases count - i,
    {
        let mut j: usize = i + 1;
        while j < count
            invariant
                count == nodes.len(),
                i < count,
                i < j <= count,
                forall|k: int|
                    0 <= k < found.len() ==> is_edge(views(nodes@), scale@, #[trigger] found[k]),
                forall|k: int|
                    0 <= k < found.len() ==> precedes(
                        #[trigger] found[k],
                        Edge { first: i, second: j },
                    ),
                forall|e: Edge|
                    #[trigger] is_edge(views(nodes@), scale@, e) && precedes(
                        e,
                        Edge { first: i, second: j },
                    ) ==> found@.contains(e),
                forall|k: int, l: int|
                    0 <= k < l < found.len() ==> precedes(
                        #[trigger] found[k],
                        #[trigger] found[l],
                    ),
            decreases count - j,
        {
            let ghost before = found@;
            if is_linked(&nodes[i], &nodes[j], scale) {
                found.push(Edge { first: i, second: j });
                proof {
                    assert(found@[before.len() as int] == Edge { first: i, second: j });
                    assert forall|e: Edge|
                        #[trigger] is_edge(views(nodes@), scale@, e) && precedes(
                            e,
                            Edge { first: i, second: (j + 1) as usize },
                        ) implies found@.contains(e) by {
                        if precedes(e, Edge { first: i, second: j }) {
                            let k = choose|k: int| 0 <= k < before.len() && before[k] == e;
                            assert(found@[k] == e);
                        } else {
                            assert(e == Edge { first: i, second: j });
                        }
                    }
                }
            }
            j = j + 1;
        }
        i = i + 1;
    }
    found
}

/// The link rule is symmetric.
pub proof fn lemma_linked_symmetric(a: NodeView, b: NodeView, steps: nat)
    ensures
        linked(a, b, steps) == linked(b, a, steps),
{
    lemma_dist_sq_symmetric(a.position, b.position);
}

/// Two endpoints are never linked, however near they are and whatever their
/// ranges and the scale.
pub proof fn lemma_endpoints_never_linked(a: NodeView, b: NodeView, steps: nat)
    requires
        a.node_type == NodeType::Endpoint,
        b.node_type == NodeType::Endpoint,
    ensures
        !linked(a, b, steps),
{
}

/// For two distinct nodes that are not both endpoints, the link depends on
/// distance alone: with `d2` the squared distance, `r1` and `r2` the ranges
/// and a scale of `steps` twentieths, they are linked exactly when
/// `d2 <= (r1 * steps / 20 + r2 * steps / 20)^2`, which in integers reads
/// `400 * d2 <= (r1 * steps + r2 * steps)^2`.
pub proof fn lemma_link_rule(a: NodeView, b: NodeView, steps: nat)
    requires
        a.id != b.id,
        !both_endpoints(a, b),
    ensures
        linked(a, b, steps) <==> ({
            let sum = a.range * steps + b.range * steps;
            400 * a.position.dist_sq(b.position) <= sum * sum
        }),
{
}

} // verus!
