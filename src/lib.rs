//! The verified core of a small wgpu application template: per-frame tracking
//! of keyboard, mouse and time; the decisions of the event loop; vertex layouts,
//! PNG texels and indirect-command records for the GPU; and single-bit helpers.

pub mod bit;
pub mod input;
pub mod misc;
pub mod render_object;
pub mod laws;
pub mod texture;
pub mod template;
