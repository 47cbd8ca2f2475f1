//! Host-side logic of a small OpenGL renderer: preparing shader sources,
//! laying out mesh buffers, and deciding which uniforms a frame uploads.
//!
//! Scalar values (positions, colours, matrices) are carried through as a
//! generic component type `F`; the library never computes with them, it only
//! decides where each one goes.
pub mod mesh;
pub mod scene;
pub mod shader;
