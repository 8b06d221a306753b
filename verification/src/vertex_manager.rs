use vstd::prelude::*;

verus! {

/// The parameter block for one vertex-buffer upload: how many bytes the
/// driver copies out of the vertex array, four per entry. The data is
/// uploaded once and drawn from unchanged.
#[derive(Clone, Copy, Debug, PartialEq, Eq, Structural)]
pub struct BufferUpload {
    pub size_bytes: usize,
}

/// The parameter block for one vertex attribute: which input slot it
/// feeds, how many components it has, how many bytes lie between two
/// consecutive vertices, and where inside a vertex the attribute starts.
#[derive(Clone, Copy, Debug, PartialEq, Eq, Structural)]
pub struct VertexAttrib {
    pub index: u32,
    pub size: i32,
    pub stride_bytes: i32,
    pub offset_bytes: usize,
}

impl VertexAttrib {
    /// The attribute's components lie wholly inside one vertex: reading
    /// `size` four-byte components from `offset_bytes` stays short of the
    /// next vertex.
    pub open spec fn within_stride(self) -> bool {
        0 <= self.size && self.offset_bytes + 4 * self.size <= self.stride_bytes
    }
}

/// Builds the layout of one vertex array: the buffer upload and the
/// attribute pointers that describe how the driver reads it back.
pub struct VertexManager {
    vertex_array: u32,
}

impl VertexManager {
    /// The vertex-array handle this layout is recorded under.
    pub closed spec fn vertex_array_id(self) -> u32 {
        self.vertex_array
    }

    /// Starts a layout under the vertex-array handle the driver generated.
    pub fn new(vertex_array: u32) -> (m: VertexManager)
        ensures
            m.vertex_array_id() == vertex_array,
    {
        VertexManager { vertex_array }
    }

    /// Lays out the upload of the given vertex entries: the driver copies
    /// four bytes for each entry.
    pub fn bind_vertex_buffer(self, vertices: &Vec<i32>) -> (r: (VertexManager, BufferUpload))
        requires
            vertices@.len() > 0,
            vertices@.len() * 4 <= usize::MAX,
        ensures
            r.0.vertex_array_id() == self.vertex_array_id(),
            r.1.size_bytes == vertices@.len() * 4,
    {
        let upload = BufferUpload { size_bytes: vertices.len() * 4 };
        (self, upload)
    }

    /// Lays out one attribute inside a vertex of `stride` four-byte
    /// entries: `size` components starting `offset` entries in, feeding
    /// input slot `index`.
    pub fn enable_vertex_attri(self, stride: u32, index: u32, size: u32, offset: u32) -> (r: (
        VertexManager,
        VertexAttrib,
    ))
        requires
            stride * 4 <= i32::MAX,
            size <= i32::MAX,
            offset * 4 <= usize::MAX,
        ensures
            r.0.vertex_array_id() == self.vertex_array_id(),
            r.1 == (VertexAttrib {
                index,
                size: size as i32,
                stride_bytes: (4 * stride) as i32,
                offset_bytes: (4 * offset) as usize,
            }),
    {
        let attrib = VertexAttrib {
            index,
            size: size as i32,
            stride_bytes: 4 * stride as i32,
            offset_bytes: 4 * offset as usize,
        };
        (self, attrib)
    }

    /// Finishes the layout and hands the vertex-array handle back for
    /// draw calls to bind.
    pub fn build(self) -> (v: u32)
        ensures
            v == self.vertex_array_id(),
    {
        self.vertex_array
    }
}

} // verus!
