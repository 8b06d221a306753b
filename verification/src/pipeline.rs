use vstd::prelude::*;

use crate::texture::Texture;
use crate::texture_manager::{TextureFilter, TextureManager, TextureUpload, TextureWrap};
use crate::vertex_manager::{BufferUpload, VertexAttrib, VertexManager};

verus! {

/// Entries one vertex of the rectangle pass occupies: three position
/// components, three color components, two texture coordinates.
pub const FLOATS_PER_VERTEX: u32 = 8;

/// Vertices one draw of the pass emits.
pub const RECT_VERTEX_COUNT: i32 = 3;

/// The vertex fixture of the rectangle pass, in tenths of a unit: for
/// each corner a position, a color, and a texture coordinate, so `5`
/// stands for `0.5` and `-5` for `-0.5`. The front end divides by ten.
pub open spec fn rect_vertex_values() -> Seq<i32> {
    seq![
        // bottom right: position, color, texture coordinate
        5i32, -5i32, 0i32, 10i32, 0i32, 0i32, 5i32, 10i32,
        // bottom left
        -5i32, -5i32, 0i32, 0i32, 10i32, 0i32, 10i32, 0i32,
        // top
        0i32, 5i32, 0i32, 0i32, 0i32, 10i32, 0i32, 0i32,
    ]
}

/// The attribute layout of the rectangle pass: positions feed slot zero,
/// colors slot one, texture coordinates slot two, inside a 32-byte vertex.
pub open spec fn rect_attribs() -> Seq<VertexAttrib> {
    seq![
        VertexAttrib { index: 0, size: 3, stride_bytes: 32, offset_bytes: 0 },
        VertexAttrib { index: 1, size: 3, stride_bytes: 32, offset_bytes: 12 },
        VertexAttrib { index: 2, size: 2, stride_bytes: 32, offset_bytes: 24 },
    ]
}

/// Everything the front end uploads for the rectangle pass: the vertex
/// array it is recorded under, the fixture, its buffer upload, and the
/// attribute pointers into it.
pub struct BufferPlan {
    pub vertex_array: u32,
    pub vertices: Vec<i32>,
    pub upload: BufferUpload,
    pub attribs: Vec<VertexAttrib>,
}

/// The parameter block for one draw: which texture and vertex array are
/// bound and which vertices are drawn as triangles.
#[derive(Clone, Copy, Debug, PartialEq, Eq, Structural)]
pub struct DrawCall {
    pub texture: u32,
    pub vertex_array: u32,
    pub first: i32,
    pub count: i32,
}

/// The rectangle pass: one vertex array, one texture, drawn as triangles.
pub struct Pipeline {
    vao: u32,
    texture_manager: TextureManager,
}

impl Pipeline {
    /// The vertex-array handle the pass draws from, zero before `init`.
    pub closed spec fn vao_id(self) -> u32 {
        self.vao
    }

    /// The texture handle the pass binds, zero before an image is loaded.
    pub closed spec fn texture_id(self) -> u32 {
        self.texture_manager.texture_id()
    }

    /// A pass with nothing recorded yet.
    pub fn new() -> (p: Pipeline)
        ensures
            p.vao_id() == 0,
            p.texture_id() == 0,
    {
        Pipeline { vao: 0, texture_manager: TextureManager::new() }
    }

    /// The vertex and fragment shader files of the pass, read by the
    /// front end and compiled by the driver.
    pub fn texture_shader_paths() -> (r: (&'static str, &'static str))
        ensures
            r.0@ == "./src/shaders/texture.vs"@,
            r.1@ == "./src/shaders/texture.fs"@,
    {
        ("./src/shaders/texture.vs", "./src/shaders/texture.fs")
    }

    /// Lays out the rectangle pass under the vertex-array handle the
    /// driver generated: the fixture, its upload, and the three
    /// attribute pointers.
    fn bind_buffer(vertex_array: u32) -> (plan: BufferPlan)
        ensures
            plan.vertex_array == vertex_array,
            plan.vertices@ == rect_vertex_values(),
            plan.upload.size_bytes == 96,
            plan.attribs@ == rect_attribs(),
    {
        let vertices: Vec<i32> = vec![
            5, -5, 0, 10, 0, 0, 5, 10,
            -5, -5, 0, 0, 10, 0, 10, 0,
            0, 5, 0, 0, 0, 10, 0, 0,
        ];
        proof {
            assert(vertices@ =~= rect_vertex_values());
        }
        let manager = VertexManager::new(vertex_array);
        let (manager, upload) = manager.bind_vertex_buffer(&vertices);
        let (manager, position) = manager.enable_vertex_attri(FLOATS_PER_VERTEX, 0, 3, 0);
        let (manager, color) = manager.enable_vertex_attri(FLOATS_PER_VERTEX, 1, 3, 3);
        let (manager, tex_coord) = manager.enable_vertex_attri(FLOATS_PER_VERTEX, 2, 2, 6);
        let vertex_array = manager.build();
        let attribs: Vec<VertexAttrib> = vec![position, color, tex_coord];
        proof {
            assert(attribs@ =~= rect_attribs());
        }
        BufferPlan { vertex_array, vertices, upload, attribs }
    }

    /// Records the vertex-array handle the driver generated and lays out
    /// everything the front end uploads under it.
    pub fn init(&mut self, vertex_array: u32) -> (plan: BufferPlan)
        ensures
            final(self).vao_id() == vertex_array,
            final(self).texture_id() == old(self).texture_id(),
            plan.vertex_array == vertex_array,
            plan.vertices@ == rect_vertex_values(),
            plan.upload.size_bytes == 96,
            plan.attribs@ == rect_attribs(),
    {
        let plan = Self::bind_buffer(vertex_array);
        self.vao = plan.vertex_array;
        plan
    }

    /// One draw of the pass: bind the loaded texture and the recorded
    /// vertex array, then draw the fixture's vertices as triangles from
    /// the first one on.
    pub fn render(&self) -> (d: DrawCall)
        ensures
            d == (DrawCall {
                texture: self.texture_id(),
                vertex_array: self.vao_id(),
                first: 0,
                count: RECT_VERTEX_COUNT,
            }),
    {
        DrawCall {
            texture: self.texture_manager.bind_texture(),
            vertex_array: self.vao,
            first: 0,
            count: RECT_VERTEX_COUNT,
        }
    }

    /// Adopts the texture handle the driver generated for the decoded
    /// image and lays out its upload; the vertex array is untouched.
    pub fn load_image(&mut self, texture: u32, image: &Texture) -> (up: TextureUpload)
        requires
            image.upload_ready(),
        ensures
            final(self).texture_id() == texture,
            final(self).vao_id() == old(self).vao_id(),
            up == (TextureUpload {
                wrap_s: TextureWrap::MirroredRepeat,
                wrap_t: TextureWrap::MirroredRepeat,
                min_filter: TextureFilter::Nearest,
                mag_filter: TextureFilter::Linear,
                level: 0,
                width: image.width as i32,
                height: image.height as i32,
                border: 0,
            }),
    {
        self.texture_manager.generate_mipmap(texture, image.width, image.height, &image.data)
    }
}

/// Every attribute of the rectangle pass lies wholly inside one vertex,
/// and together the three tile the vertex exactly: positions, then
/// colors, then texture coordinates, with no gap and no overlap, filling
/// all 32 bytes.
pub proof fn lemma_rect_attribs_tile_vertex()
    ensures
        forall|i: int| 0 <= i < rect_attribs().len() ==> (#[trigger] rect_attribs()[i]).within_stride(),
        forall|i: int|
            0 <= i < rect_attribs().len() ==> (#[trigger] rect_attribs()[i]).stride_bytes == 4
                * FLOATS_PER_VERTEX,
        rect_attribs()[0].offset_bytes == 0,
        forall|i: int|
            0 < i < rect_attribs().len() ==> (#[trigger] rect_attribs()[i]).offset_bytes
                == rect_attribs()[i - 1].offset_bytes + 4 * rect_attribs()[i - 1].size,
        rect_attribs().last().offset_bytes + 4 * rect_attribs().last().size == 4
            * FLOATS_PER_VERTEX,
{
}

/// The draw call consumes exactly the vertices the fixture uploads: the
/// fixture's length is the per-vertex entry count times the drawn vertex
/// count.
pub proof fn lemma_rect_fixture_matches_draw()
    ensures
        rect_vertex_values().len() == FLOATS_PER_VERTEX * RECT_VERTEX_COUNT,
{
}

} // verus!
