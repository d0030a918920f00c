//! Interaction core of a vector-graphics editor: per-tool state machines that
//! turn pointer and key events into document edit requests, and the engine that
//! tracks which manipulator points of which vector layers are selected.
//!
//! Everything here is integer arithmetic on plain values. Positions are whole
//! pixels in document space; the host resolves the pointer into that space,
//! runs hit tests against filled shapes and applies the requests that a
//! transition appends to the response queue. Distances that are given in
//! screen pixels, the reach of a click and the travel that makes a drag, are
//! measured at the scale at which the viewport draws the document.

pub mod color;
pub mod consts;
pub mod document;
pub mod freehand_tool;
pub mod fsm;
pub mod geometry;
pub mod hints;
pub mod input;
pub mod layout;
pub mod messages;
pub mod path_gesture;
pub mod path_tool;
pub mod sequences;
pub mod shape_editor;
pub mod vector;
