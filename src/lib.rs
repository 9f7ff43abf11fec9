//! Tessellation of 2D shapes into triangle lists: point producers for each
//! shape kind, a streaming fan tessellator that fills bounded batches of
//! vertices and per-vertex colors, fixed lists for rectangles, and a drawing
//! context that derives transform and color state and decides how to fill.

pub mod context;
pub mod fan;
pub mod rect;
pub mod shapes;
