//! Verified core of a Direct3D 9 renderer for Dear ImGui draw data.

pub mod buffer;
pub mod device;
pub mod device_model;
pub mod draw_data;
pub mod error;
pub mod float_bits;
pub mod font;
pub mod geometry;
pub mod render_state;
pub mod renderer;
pub mod session;
pub mod status;
pub mod textures;
pub mod translate;
pub mod vertex;
