//! Converts declarative 2D shape descriptions (fill/stroke paths) into
//! renderable triangle meshes.
//!
//! A [`path::Path`] plus a [`draw::DrawMode`] is tessellated into a
//! [`vertex::VertexBuffers`] with counter-clockwise triangle winding, and the
//! change-driven system in [`plugin`] keeps one mesh per shape entity in sync
//! with its path and style.

pub mod draw;
pub mod mesh;
pub mod path;
pub mod plugin;
pub mod tess;
pub mod vertex;
