//! Renderable scene entities: cube geometry, the commands that upload it to a
//! graphics context, and the registry that owns the live entities.

pub mod allocation;
pub mod buffers;
pub mod bytes;
pub mod command;
pub mod data;
pub mod err;
pub mod geometry;
pub mod gl;
pub mod object;
pub mod program;
pub mod registry;
