//! A minimal real-time rendering front end.
//!
//! Each frame the application records draw requests as deferred GPU
//! operations; a single flush point drains them against one graphics
//! context. Compiled shader and program objects are shared through a
//! registry that compiles each source at most once while it has live
//! users and deletes the GPU object exactly when the last user is gone.

pub mod application_context;
pub mod commands;
pub mod drawables;
pub mod driver;
pub mod errors;
pub mod game;
pub mod input;
pub mod mut_cell;
pub mod shaders;
pub mod wrappers;
