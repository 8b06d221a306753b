use vstd::prelude::*;

verus! {

/// How the sampler treats coordinates outside the unit square.
#[derive(Clone, Copy, Debug, PartialEq, Eq, Structural)]
pub enum TextureWrap {
    MirroredRepeat,
}

/// How the sampler filters when a texture is minified or magnified.
#[derive(Clone, Copy, Debug, PartialEq, Eq, Structural)]
pub enum TextureFilter {
    Nearest,
    Linear,
}

/// The parameter block for one texture upload: the wrapping and filtering
/// settings and the image-level arguments of the driver's two-dimensional
/// image call, with mip-map generation to follow. Pixel data travels
/// beside this block, three bytes per pixel.
#[derive(Clone, Copy, Debug, PartialEq, Eq, Structural)]
pub struct TextureUpload {
    pub wrap_s: TextureWrap,
    pub wrap_t: TextureWrap,
    pub min_filter: TextureFilter,
    pub mag_filter: TextureFilter,
    pub level: i32,
    pub width: i32,
    pub height: i32,
    pub border: i32,
}

/// Tracks the texture handle that later draw calls bind.
pub struct TextureManager {
    texture: u32,
}

impl TextureManager {
    /// The handle of the texture that was last uploaded, zero before any
    /// upload: the driver never hands out zero as a texture name.
    pub closed spec fn texture_id(self) -> u32 {
        self.texture
    }

    /// A fresh manager with no texture uploaded yet.
    pub fn new() -> (m: TextureManager)
        ensures
            m.texture_id() == 0,
    {
        TextureManager { texture: 0 }
    }

    /// Adopts the texture handle the driver generated and lays out the
    /// upload of the given pixels: mirrored repeat on both axes, nearest
    /// filtering when minified, linear when magnified, the base image
    /// level with no border, and the stated dimensions.
    pub fn generate_mipmap(&mut self, texture: u32, width: u32, height: u32, data: &Vec<u8>) -> (up: TextureUpload)
        requires
            data@.len() == width * height * 3,
            data@.len() > 0,
            width <= i32::MAX,
            height <= i32::MAX,
        ensures
            final(self).texture_id() == texture,
            up == (TextureUpload {
                wrap_s: TextureWrap::MirroredRepeat,
                wrap_t: TextureWrap::MirroredRepeat,
                min_filter: TextureFilter::Nearest,
                mag_filter: TextureFilter::Linear,
                level: 0,
                width: width as i32,
                height: height as i32,
                border: 0,
            }),
    {
        self.texture = texture;
        TextureUpload {
            wrap_s: TextureWrap::MirroredRepeat,
            wrap_t: TextureWrap::MirroredRepeat,
            min_filter: TextureFilter::Nearest,
            mag_filter: TextureFilter::Linear,
            level: 0,
            width: width as i32,
            height: height as i32,
            border: 0,
        }
    }

    /// The handle a draw pass binds before drawing.
    pub fn bind_texture(&self) -> (t: u32)
        ensures
            t == self.texture_id(),
    {
        self.texture
    }
}

} // verus!
