//! Verified core of a small shape-drawing demo: the triangle lists that are
//! uploaded to the GPU, the vertex layout the shaders read, the choice of the
//! surface format, and the state
//! machine that turns window events into surface, draw and exit decisions.

pub mod geometry;
pub mod layout;
pub mod state;
pub mod surface;
