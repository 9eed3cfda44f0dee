//! A minimal 2D rendering and game layer on whole-pixel coordinates.
//!
//! The library describes what is drawn and how the entities of a small
//! game move: geometry for colored shapes and textured sprites, the
//! ingredients of the model-view-projection transform under a resizable
//! window, and axis-aligned collision with boundary reflection. It does no
//! rendering itself: a renderer turns the descriptions into GPU resources
//! and draw calls.

pub mod color;
pub mod vector;
pub mod vertex;
pub mod graphics_handler;
pub mod transform;
pub mod texture;
pub mod sprite;
pub mod shape;
pub mod input_handler;
pub mod pong;
pub mod editor;
pub mod game;
