//! Layout coordination for a host window that stacks a title bar, a main
//! content pane and an expandable ask pane.
//!
//! Geometry is computed on exact integers: a display scale factor is a
//! fraction `num / den`, logical heights are whole logical units, and pane
//! sizes are physical pixels.
pub mod geometry;
pub mod registry;
pub mod session;
