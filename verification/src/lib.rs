//! Frame logic of a deferred renderer, apart from the graphics interface that carries it out.

pub mod engine;
pub mod gameloop;
pub mod scene;
pub mod vulkan;
