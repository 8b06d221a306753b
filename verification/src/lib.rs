//! A verified model of a staged OpenGL tutorial: a window bootstrap with its
//! event loop, a clear-color pass, a shader compile-and-link helper, a
//! vertex-buffer/attribute-layout builder, and a texture upload with
//! mip-mapping.
//!
//! The graphics driver itself is outside this library: every function here
//! computes the decisions and the exact parameter blocks that the driver
//! calls take (handles, sizes, offsets, filter modes), and an unverified
//! front end hands them to the driver and feeds driver results (handles,
//! compile status, key events) back in as plain values.

mod canvas;
mod color;
mod pipeline;
mod shader;
mod shader_manager;
mod texture;
mod texture_manager;
mod tutorial;
mod vertex_manager;
mod window;

pub use canvas::Canvas;
pub use canvas::ClearOp;
pub use color::Color;
pub use color::dark_blue;
pub use pipeline::BufferPlan;
pub use pipeline::DrawCall;
pub use pipeline::FLOATS_PER_VERTEX;
pub use pipeline::Pipeline;
pub use pipeline::RECT_VERTEX_COUNT;
pub use pipeline::lemma_rect_attribs_tile_vertex;
pub use pipeline::lemma_rect_fixture_matches_draw;
pub use pipeline::rect_attribs;
pub use pipeline::rect_vertex_values;
pub use shader::CompileReport;
pub use shader::GL_TRUE;
pub use shader::Shader;
pub use shader::ShaderType;
pub use shader::compile_report;
pub use shader_manager::LinkPlan;
pub use shader_manager::ShaderManager;
pub use texture::Texture;
pub use texture_manager::TextureFilter;
pub use texture_manager::TextureManager;
pub use texture_manager::TextureUpload;
pub use texture_manager::TextureWrap;
pub use vertex_manager::BufferUpload;
pub use vertex_manager::VertexAttrib;
pub use vertex_manager::VertexManager;
pub use tutorial::SCR_HEIGHT;
pub use tutorial::SCR_WIDTH;
pub use tutorial::Tutorial;
pub use tutorial::select_tutorial;
pub use tutorial::usage;
pub use tutorial::window_title;
pub use window::ContextHints;
pub use window::GlWindow;
pub use window::escape_free;
pub use window::lemma_escape_ends_show;
