//! GPU-side rendering logic that does not itself talk to the GPU.

pub mod atlas;
pub mod builtin_glyphs;
pub mod prepare;
pub mod frame_input;
pub mod image_render;
pub mod pipeline;
pub mod render_target;
pub mod state;
pub mod compositor;
pub mod pane_cache;
pub mod renderer;
