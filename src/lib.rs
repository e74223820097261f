//! A remote-controlled vector-graphics device, without its window and GPU.
//!
//! Requests are decoded into commands (`command`), colors and stroke parameters
//! into paints and stroke descriptors (`codec`, `hex`). A single owner
//! (`lifecycle`) applies the commands to the scene (`scene`) while a surface
//! exists, follows the window through suspend and resume, and coalesces redraw
//! requests. It decides; its caller creates windows and surfaces and renders.
//! Coordinates and widths travel as IEEE-754 bit patterns (`geometry`).
pub mod codec;
pub mod command;
pub mod geometry;
pub mod hex;
pub mod laws;
pub mod lifecycle;
pub mod scene;
