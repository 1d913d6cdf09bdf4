//! Resource descriptions and the frame orchestrator.

pub mod bind_group_layouts;
pub mod bind_groups;
pub mod buffers;
pub mod graphics;
pub mod render_pass;
pub mod structures;
