//! Core logic of a live SVG preview panel: deciding which source document the
//! panel is bound to, keeping at most one render in flight and discarding
//! superseded results, and turning pointer and wheel input into a pan offset
//! and a zoom scale.
//!
//! The host editor, the window system and the rasterizer itself are outside
//! collaborators: this crate holds the decisions they are driven by, stated
//! over plain values.

pub mod document;
pub mod interact;
pub mod session;
pub mod commands;
