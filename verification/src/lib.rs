//! A canvas of wireless network nodes.
//!
//! Nodes are placed on a two-dimensional canvas, dragged around, given one of
//! three roles, and linked to each other whenever their coverage ranges,
//! scaled by a global zoom factor, reach far enough.  This crate holds the
//! state of such a canvas and every rule that changes or reads it; drawing,
//! pointer input and files are left to the program around it.
//!
//! All quantities are integers.  Positions are whole canvas units, the zoom
//! factor is a number of twentieths, and the link rule is evaluated exactly.

pub mod geometry;
pub mod node;
pub mod scale;
pub mod connectivity;
mod random;
pub mod store;
pub mod canvas;

pub use canvas::NodeApp;
