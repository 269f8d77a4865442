//! Emcee: a world of box-shaped rooms joined by portals, and the renderer
//! that shows it through a camera, each portal a window into the room behind
//! it.
//!
//! - `server` holds the world and its invariants.
//! - `geometry` builds the meshes of rooms and portals.
//! - `pipeline` names the matrices that a draw is transformed by.
//! - `render` decides what a frame draws, in which order and under which
//!   render state.
//! - `gui` and `config` turn input events into actions on a camera.
//! - `scalar`, `angle`, `space` and `ids` are the values all of these are
//!   made of.
//!
//! The library decides and never touches the graphics hardware: a frame is
//! returned as a list of draws for the caller to carry out.

pub mod angle;
pub mod config;
pub mod geometry;
pub mod gui;
pub mod ids;
pub mod pipeline;
pub mod render;
pub mod scalar;
pub mod server;
pub mod space;
