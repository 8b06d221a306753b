use vstd::prelude::*;

use crate::color::Color;
use crate::pipeline::{DrawCall, Pipeline, RECT_VERTEX_COUNT};
use crate::texture::Texture;
use crate::texture_manager::{TextureFilter, TextureUpload, TextureWrap};

verus! {

/// The parameter block for clearing the framebuffer: the color the front
/// end sets before clearing the color buffer.
#[derive(Clone, Copy, Debug, PartialEq, Eq, Structural)]
pub struct ClearOp {
    pub color: Color,
}

/// The drawing surface of one window: everything drawn goes through its
/// rectangle pass.
pub struct Canvas {
    pipeline: Pipeline,
}

impl Canvas {
    /// The vertex-array handle the canvas draws from.
    pub closed spec fn vao_id(self) -> u32 {
        self.pipeline.vao_id()
    }

    /// The texture handle the canvas binds when drawing.
    pub closed spec fn texture_id(self) -> u32 {
        self.pipeline.texture_id()
    }

    /// Wraps an initialized pass; the front end builds the pass once the
    /// window's context is current.
    pub fn new(pipeline: Pipeline) -> (c: Canvas)
        ensures
            c.vao_id() == pipeline.vao_id(),
            c.texture_id() == pipeline.texture_id(),
    {
        Canvas { pipeline }
    }

    /// Clears the whole framebuffer to the given color.
    pub fn draw_background(&self, color: Color) -> (op: ClearOp)
        ensures
            op.color == color,
    {
        ClearOp { color }
    }

    /// Draws the fixture's triangle with whatever texture is loaded.
    pub fn draw_triangle(&self) -> (d: DrawCall)
        ensures
            d == (DrawCall {
                texture: self.texture_id(),
                vertex_array: self.vao_id(),
                first: 0,
                count: RECT_VERTEX_COUNT,
            }),
    {
        self.pipeline.render()
    }

    /// Loads a decoded image under the texture handle the driver
    /// generated, then draws the triangle with it bound.
    pub fn draw_image(&mut self, texture: u32, image: &Texture) -> (r: (TextureUpload, DrawCall))
        requires
            image.upload_ready(),
        ensures
            final(self).texture_id() == texture,
            final(self).vao_id() == old(self).vao_id(),
            r.0 == (TextureUpload {
                wrap_s: TextureWrap::MirroredRepeat,
                wrap_t: TextureWrap::MirroredRepeat,
                min_filter: TextureFilter::Nearest,
                mag_filter: TextureFilter::Linear,
                level: 0,
                width: image.width as i32,
                height: image.height as i32,
                border: 0,
            }),
            r.1 == (DrawCall {
                texture,
                vertex_array: old(self).vao_id(),
                first: 0,
                count: RECT_VERTEX_COUNT,
            }),
    {
        let upload = self.pipeline.load_image(texture, image);
        let draw = self.pipeline.render();
        (upload, draw)
    }
}

} // verus!
