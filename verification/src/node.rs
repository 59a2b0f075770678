//! Node records.

use crate::geometry::Point;
use vstd::prelude::*;

verus! {

/// The smallest coverage range that the editing control and node creation give.
pub const MIN_RANGE: u32 = 50;

/// The largest coverage range that the editing control and node creation give.
pub const MAX_RANGE: u32 = 200;

/// The side of the square in which a node is drawn and grabbed, in canvas
/// units at scale one.
pub const NODE_SIZE: u32 = 50;

/// The role of a node in the network.
#[derive(Clone, Copy, Debug, PartialEq, Eq, Structural)]
pub enum NodeType {
    Coordinator,
    Router,
    Endpoint,
}

/// One simulated device.
///
/// A record by itself carries no invariant: a range outside
/// `MIN_RANGE..=MAX_RANGE` is representable, because records that were read
/// from a file are taken as they are.
#[derive(Debug, PartialEq, Eq)]
pub struct Node {
    /// Free-text label.
    pub name: String,
    /// Identifier by which the store finds the node.
    pub id: usize,
    /// Where the node sits on the canvas.
    pub position: Point,
    /// The role of the node.
    pub node_type: NodeType,
    /// Radius of the coverage circle, in canvas units at scale one.
    pub range: u32,
}

/// The mathematical value of a `Node`.
pub struct NodeView {
    pub name: Seq<char>,
    pub id: nat,
    pub position: Point,
    pub node_type: NodeType,
    pub range: nat,
}

impl View for Node {
    type V = NodeView;

    open spec fn view(&self) -> NodeView {
        NodeView {
            name: self.name@,
            id: self.id as nat,
            position: self.position,
            node_type: self.node_type,
            range: self.range as nat,
        }
    }
}

impl NodeView {
    /// The record of a node as it is when created: labelled "Node", an
    /// endpoint, at `position` with coverage `range`.
    pub open spec fn fresh(id: nat, position: Point, range: nat) -> NodeView {
        NodeView { name: "Node"@, id, position, node_type: NodeType::Endpoint, range }
    }
}

/// The views of a sequence of nodes, in the same order.
pub open spec fn views(nodes: Seq<Node>) -> Seq<NodeView> {
    nodes.map_values(|n: Node| n@)
}

/// The range nearest to `range` that the editing control allows.
pub open spec fn clamp_range(range: nat) -> nat {
    if range < MIN_RANGE {
        MIN_RANGE as nat
    } else if range > MAX_RANGE {
        MAX_RANGE as nat
    } else {
        range
    }
}

impl Clone for Node {
    fn clone(&self) -> (copy: Self)
        ensures
            copy == *self,
    {
        Node {
            name: self.name.clone(),
            id: self.id,
            position: self.position,
            node_type: self.node_type,
            range: self.range,
        }
    }
}

impl Node {
    /// A node as it is when created: labelled "Node", an endpoint.
    pub fn fresh(id: usize, position: Point, range: u32) -> (node: Node)
        ensures
            node@ == NodeView::fresh(id as nat, position, range as nat),
    {
        Node { name: "Node".to_owned(), id, position, node_type: NodeType::Endpoint, range }
    }
}

/// Brings a range into `MIN_RANGE..=MAX_RANGE`.
pub fn clamped_range(range: u32) -> (clamped: u32)
    ensures
        clamped == clamp_range(range as nat),
{
    if range < MIN_RANGE {
        MIN_RANGE
    } else if range > MAX_RANGE {
        MAX_RANGE
    } else {
        range
    }
}

} // verus!
