//! The canvas as a whole, and what pointer input does to it.
//!
//! The program around this crate asks the toolkit what happened in a frame
//! and hands the answers over as plain values; the functions here decide what
//! that does to the canvas.  A frame has two parts.  First the canvas itself
//! is handled: a drag over the background shifts every node, a zoom gesture
//! changes the scale, a secondary click creates a node.  Then the nodes are
//! visited in order, each with the gesture that the toolkit reported for it.

use crate::connectivity::{edges, is_edge, precedes, Edge};
use crate::geometry::{pointer_or_origin, Offset, Point};
use crate::node::{views, Node, NodeView, MAX_RANGE, MIN_RANGE};
use crate::random::draw_between;
use crate::scale::{classify_zoom, zoom_of_factor, zoomed_steps, Scale, Zoom, DEFAULT_STEPS};
use crate::store::{id_view, lemma_snapshot_restores, max_id, NodeStore, StoreError, StoreView};
use vstd::prelude::*;

verus! {

/// The state of one editing session.
#[derive(Debug)]
pub struct NodeApp {
    /// The nodes, the id allocator and the selection.
    pub store: NodeStore,
    /// The global zoom factor.
    pub scale: Scale,
    /// The identifier of the node that is being dragged, if any.
    pub dragging: Option<usize>,
    /// Where the dragged node sits relative to the pointer.
    pub offset: Offset,
}

/// The mathematical value of a `NodeApp`.
pub struct AppView {
    pub store: StoreView,
    /// The scale in twentieths.
    pub steps: nat,
    pub dragging: Option<nat>,
    pub offset: Offset,
}

/// What the toolkit reported about the canvas in one frame.
#[derive(Clone, Copy, Debug)]
pub struct CanvasInput {
    /// Where the pointer is, if it is over the canvas.
    pub pointer: Option<Point>,
    /// Whether the background is being dragged.
    pub background_dragged: bool,
    /// How far the background drag moved in this frame.
    pub drag_delta: Offset,
    /// Whether the pointer hovers over the canvas.
    pub hovered: bool,
    /// The zoom factor of this frame in millionths; 1_000_000 is no change.
    pub zoom_millionths: i64,
    /// Whether the secondary button was clicked.
    pub secondary_clicked: bool,
}

/// What the toolkit reported about one node in one frame.
#[derive(Clone, Copy, Debug, PartialEq, Eq, Structural)]
pub struct NodeGesture {
    /// A drag began on the node.
    pub drag_started: bool,
    /// A drag of the node ended.
    pub drag_stopped: bool,
}

/// Why loading left the canvas as it was.
#[derive(Clone, Copy, Debug, PartialEq, Eq, Structural)]
pub enum LoadError {
    /// The file could not be read, or what it holds is no list of nodes.
    Unreadable,
    /// A node in the file holds the largest identifier there is.
    IdsExhausted,
}

impl View for NodeApp {
    type V = AppView;

    open spec fn view(&self) -> AppView {
        AppView {
            store: self.store@,
            steps: self.scale@,
            dragging: id_view(self.dragging),
            offset: self.offset,
        }
    }
}

impl AppView {
    /// A new session: an empty store, the default scale, no drag.
    pub open spec fn new() -> AppView {
        AppView {
            store: StoreView::empty(),
            steps: DEFAULT_STEPS as nat,
            dragging: None,
            offset: Offset::spec_zero(),
        }
    }

    /// The session after every node was shifted by `by`.
    pub open spec fn pan(self, by: Offset) -> AppView {
        AppView { store: self.store.shift_all(by), ..self }
    }

    /// The session after a zoom request.
    pub open spec fn zoom(self, zoom: Zoom) -> AppView {
        AppView { steps: zoomed_steps(self.steps, zoom), ..self }
    }

    /// Whether an identifier is left for another node.
    pub open spec fn can_spawn(self) -> bool {
        self.store.next_id < usize::MAX
    }

    /// The session after a node with coverage `range` was created at
    /// `position`; unchanged when no identifier is left.
    pub open spec fn spawn(self, position: Point, range: nat) -> AppView {
        if self.can_spawn() {
            AppView { store: self.store.create(position, range), ..self }
        } else {
            self
        }
    }

    /// The session after the canvas part of a frame: the background drag,
    /// then the zoom gesture, then the secondary click, for which `range` is
    /// the coverage of the created node.
    pub open spec fn canvas(self, input: CanvasInput, range: nat) -> AppView {
        let panned = if input.background_dragged {
            self.pan(input.drag_delta)
        } else {
            self
        };
        let zoomed = if input.hovered {
            panned.zoom(zoom_of_factor(input.zoom_millionths as int))
        } else {
            panned
        };
        if input.secondary_clicked {
            zoomed.spawn(
                match input.pointer {
                    Some(p) => p,
                    None => Point::spec_origin(),
                },
                range,
            )
        } else {
            zoomed
        }
    }

    /// The session after the node at `index` was visited with its gesture.
    ///
    /// A drag that starts makes the node the dragged one and records where it
    /// sits relative to the pointer.  The dragged node then follows the
    /// pointer and becomes the selected one.  A drag that stops leaves no
    /// node dragged.  Nothing changes when there is no node at `index`.
    pub open spec fn gesture(self, index: int, gesture: NodeGesture, pointer: Point) -> AppView {
        if 0 <= index < self.store.nodes.len() {
            let node = self.store.nodes[index];
            let started = if gesture.drag_started {
                AppView {
                    dragging: Some(node.id),
                    offset: node.position.spec_offset_from(pointer),
                    ..self
                }
            } else {
                self
            };
            let moved = if started.dragging == Some(node.id) {
                AppView {
                    store: started.store.place(index, pointer.spec_shifted(started.offset)).select(
                        Some(node.id),
                    ),
                    ..started
                }
            } else {
                started
            };
            if gesture.drag_stopped {
                AppView { dragging: None, ..moved }
            } else {
                moved
            }
        } else {
            self
        }
    }

    /// The session after the nodes were visited in order, node `i` with
    /// `gestures[i]`.
    pub open spec fn gestures(self, gestures: Seq<NodeGesture>, pointer: Point) -> AppView
        decreases gestures.len(),
    {
        if gestures.len() == 0 {
            self
        } else {
            self.gestures(gestures.drop_last(), pointer).gesture(
                gestures.len() - 1,
                gestures.last(),
                pointer,
            )
        }
    }

    /// The session after `nodes` were loaded in place of the nodes it had.
    pub open spec fn load(self, nodes: Seq<NodeView>) -> AppView {
        AppView { store: self.store.replace_all(nodes), ..self }
    }
}

impl NodeApp {
    /// A new session: no nodes, scale 0.8, nothing dragged or selected.
    pub fn new() -> (app: NodeApp)
        ensures
            app@ == AppView::new(),
    {
        NodeApp {
            store: NodeStore::new(),
            scale: Scale::default(),
            dragging: None,
            offset: Offset::zero(),
        }
    }

    /// Shifts every node by `by`, as a drag over the background does.
    pub fn pan(&mut self, by: Offset)
        ensures
            final(self)@ == old(self)@.pan(by),
    {
        self.store.shift_all(by);
    }

    /// Handles a zoom gesture whose factor is given in millionths.  A factor
    /// in the dead zone from 0.99 to 1.01 changes nothing; a larger one takes
    /// the scale one step up, a smaller one one step down, whatever the size
    /// of the factor.
    pub fn zoom(&mut self, factor_millionths: i64)
        ensures
            final(self)@ == old(self)@.zoom(zoom_of_factor(factor_millionths as int)),
    {
        self.scale.adjust(classify_zoom(factor_millionths));
    }

    /// Creates a node with coverage `range` at `position`.  Returns its
    /// identifier, or `None`, with nothing changed, when no identifier is
    /// left.
    pub fn spawn_with_range(&mut self, position: Point, range: u32) -> (id: Option<usize>)
        ensures
            final(self)@ == old(self)@.spawn(position, range as nat),
            id_view(id) == if old(self)@.can_spawn() {
                Some(old(self)@.store.next_id)
            } else {
                None
            },
    {
        if self.store.ids_exhausted() {
            None
        } else {
            Some(self.store.create_with_range(position, range))
        }
    }

    /// Creates a node at `position` whose coverage is drawn at random from
    /// `MIN_RANGE..=MAX_RANGE`.  Returns its identifier, or `None`, with
    /// nothing changed, when no identifier is left.
    pub fn spawn(&mut self, position: Point) -> (id: Option<usize>)
        ensures
            exists|range: nat|
                MIN_RANGE <= range <= MAX_RANGE && final(self)@ == #[trigger] old(self)@.spawn(
                    position,
                    range,
                ),
            id_view(id) == if old(self)@.can_spawn() {
                Some(old(self)@.store.next_id)
            } else {
                None
            },
    {
        let range = draw_between(MIN_RANGE, MAX_RANGE);
        self.spawn_with_range(position, range)
    }

    /// Handles the canvas part of a frame with `range` as the coverage of a
    /// node that a secondary click creates.  Returns the identifier of the
    /// created node, if one was created.
    pub fn handle_canvas_with_range(&mut self, input: &CanvasInput, range: u32) -> (id: Option<
        usize,
    >)
        ensures
            final(self)@ == old(self)@.canvas(*input, range as nat),
            id_view(id) == if input.secondary_clicked && old(self)@.can_spawn() {
                Some(old(self)@.store.next_id)
            } else {
                None
            },
    {
        let pointer = pointer_or_origin(input.pointer);
        if input.background_dragged {
            self.pan(input.drag_delta);
        }
        if input.hovered {
            self.zoom(input.zoom_millionths);
        }
        if input.secondary_clicked {
            self.spawn_with_range(pointer, range)
        } else {
            None
        }
    }

    /// Handles the canvas part of a frame.  The coverage of a created node
    /// is drawn at random from `MIN_RANGE..=MAX_RANGE`.  Returns the
    /// identifier of the created node, if one was created.
    pub fn handle_canvas(&mut self, input: &CanvasInput) -> (id: Option<usize>)
        ensures
            exists|range: nat|
                MIN_RANGE <= range <= MAX_RANGE && final(self)@ == #[trigger] old(self)@.canvas(
                    *input,
                    range,
                ),
            id_view(id) == if input.secondary_clicked && old(self)@.can_spawn() {
                Some(old(self)@.store.next_id)
            } else {
                None
            },
    {
        let range = if input.secondary_clicked {
            draw_between(MIN_RANGE, MAX_RANGE)
        } else {
            MIN_RANGE
        };
        self.handle_canvas_with_range(input, range)
    }

    /// Visits the node at `index` with the gesture that the toolkit reported
    /// for it.  Returns whether there is such a node.
    pub fn gesture(&mut self, index: usize, gesture: NodeGesture, pointer: Point) -> (visited: bool)
        ensures
            final(self)@ == old(self)@.gesture(index as int, gesture, pointer),
            visited == (index < old(self)@.store.nodes.len()),
    {
        if index >= self.store.len() {
            return false;
        }
        let id = self.store.nodes()[index].id;
        let position = self.store.nodes()[index].position;
        if gesture.drag_started {
            self.dragging = Some(id);
            self.offset = position.offset_from(pointer);
        }
        let follows = match self.dragging {
            Some(dragged) => dragged == id,
            None => false,
        };
        if follows {
            self.store.place(index, pointer.shifted(self.offset));
            self.store.set_selected(Some(id));
        }
        if gesture.drag_stopped {
            self.dragging = None;
        }
        true
    }

    /// Visits the nodes in order, node `i` with `gestures[i]`.  Entries
    /// beyond the last node have no effect.
    pub fn gestures(&mut self, gestures: &Vec<NodeGesture>, pointer: Point)
        ensures
            final(self)@ == old(self)@.gestures(gestures@, pointer),
    {
        let mut index: usize = 0;
        while index < gestures.len()
            invariant
                index <= gestures.len(),
                self@ == old(self)@.gestures(gestures@.take(index as int), pointer),
            decreases gestures.len() - index,
        {
            proof {
                let upto = gestures@.take(index + 1);
                assert(upto.drop_last() =~= gestures@.take(index as int));
            }
            self.gesture(index, gestures[index], pointer);
            index = index + 1;
        }
        assert(gestures@.take(index as int) =~= gestures@);
    }

    /// The links to draw: every pair of linked nodes once, by their places
    /// in the store, the earlier node first, ordered by the first node and
    /// then by the second.
    pub fn edges(&self) -> (found: Vec<Edge>)
        ensures
            forall|k: int|
                0 <= k < found.len() ==> is_edge(self@.store.nodes, self@.steps, #[trigger] found[k]),
            forall|e: Edge|
                #[trigger] is_edge(self@.store.nodes, self@.steps, e) ==> found@.contains(e),
            forall|k: int, l: int|
                0 <= k < l < found.len() ==> precedes(#[trigger] found[k], #[trigger] found[l]),
    {
        edges(self.store.nodes(), &self.scale)
    }

    /// The nodes as they are written out: a copy of each, oldest first.
    pub fn save_nodes(&self) -> (copy: Vec<Node>)
        ensures
            views(copy@) == self@.store.nodes,
    {
        self.store.snapshot()
    }

    /// Takes over what was read from a file.  `parsed` is `None` when the
    /// file could not be read or does not hold a list of nodes.  Either all
    /// nodes are replaced, and the next identifier set above them, or nothing
    /// changes at all.
    pub fn load_nodes(&mut self, parsed: Option<Vec<Node>>) -> (outcome: Result<(), LoadError>)
        ensures
            match outcome {
                Ok(()) => {
                    &&& parsed matches Some(nodes)
                    &&& max_id(views(nodes@)) < usize::MAX
                    &&& final(self)@ == old(self)@.load(views(nodes@))
                },
                Err(LoadError::Unreadable) => parsed is None && final(self)@ == old(self)@,
                Err(LoadError::IdsExhausted) => {
                    &&& parsed matches Some(nodes)
                    &&& max_id(views(nodes@)) == usize::MAX
                    &&& final(self)@ == old(self)@
                },
            },
    {
        match parsed {
            None => Err(LoadError::Unreadable),
            Some(nodes) => match self.store.replace_all(nodes) {
                Ok(()) => Ok(()),
                Err(StoreError::IdsExhausted) => Err(LoadError::IdsExhausted),
            },
        }
    }
}

impl Default for NodeApp {
    fn default() -> (app: NodeApp)
        ensures
            app@ == AppView::new(),
    {
        NodeApp::new()
    }
}

/// Visiting a node changes no other node, and of the visited node nothing
/// but its position: dragging one node leaves all other positions as they
/// were.
pub proof fn lemma_gesture_moves_one_node(
    app: AppView,
    index: int,
    gesture: NodeGesture,
    pointer: Point,
)
    ensures
        ({
            let after = app.gesture(index, gesture, pointer);
            &&& after.store.nodes.len() == app.store.nodes.len()
            &&& after.store.next_id == app.store.next_id
            &&& after.steps == app.steps
            &&& forall|j: int|
                0 <= j < app.store.nodes.len() && j != index ==> #[trigger] after.store.nodes[j]
                    == app.store.nodes[j]
            &&& 0 <= index < app.store.nodes.len() ==> after.store.nodes[index] == NodeView {
                position: after.store.nodes[index].position,
                ..app.store.nodes[index]
            }
        }),
{
}

/// A drag that starts does not make the node jump: in the frame in which the
/// drag of a node starts, the node stays where it is.
pub proof fn lemma_drag_start_keeps_position(app: AppView, index: int, stopped: bool, pointer: Point)
    requires
        0 <= index < app.store.nodes.len(),
    ensures
        ({
            let gesture = NodeGesture { drag_started: true, drag_stopped: stopped };
            app.gesture(index, gesture, pointer).store.nodes[index] == app.store.nodes[index]
        }),
{
}

/// Loading what was just saved gives back every node, field for field and in
/// the same order, and changes nothing else but the id allocator, which still
/// lies above every identifier.
pub proof fn lemma_load_restores_saved(app: AppView)
    requires
        app.store.valid(),
    ensures
        app.load(app.store.nodes).store.nodes == app.store.nodes,
        app.load(app.store.nodes).store.selected == app.store.selected,
        app.load(app.store.nodes).store.valid(),
        app.load(app.store.nodes).steps == app.steps,
        app.load(app.store.nodes).dragging == app.dragging,
        app.load(app.store.nodes).offset == app.offset,
{
    lemma_snapshot_restores(app.store);
}

} // verus!
