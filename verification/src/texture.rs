use vstd::prelude::*;

verus! {

/// Decoded image data, three bytes per pixel, row after row. The front
/// end decodes an image file into this shape; a missing or corrupt file
/// never reaches this type.
pub struct Texture {
    pub data: Vec<u8>,
    pub width: u32,
    pub height: u32,
}

impl Texture {
    /// The pixel data covers the stated dimensions exactly: three bytes
    /// for each of `width * height` pixels.
    pub open spec fn well_formed(self) -> bool {
        self.data@.len() == self.width * self.height * 3
    }

    /// What a decoded image must satisfy before its upload can be laid
    /// out: well-formed pixel data that is not empty, with dimensions the
    /// driver's signed sizes can hold.
    pub open spec fn upload_ready(self) -> bool {
        self.well_formed() && self.data@.len() > 0 && self.width <= i32::MAX && self.height
            <= i32::MAX
    }

    /// Accepts decoded pixel data only when its length matches the stated
    /// dimensions; anything else is handed back unchanged.
    pub fn new(width: u32, height: u32, data: Vec<u8>) -> (r: Result<Texture, Vec<u8>>)
        ensures
            r is Ok <==> data@.len() == width * height * 3,
            r is Ok ==> r->Ok_0 == (Texture { data, width, height }) && r->Ok_0.well_formed(),
            r is Err ==> r->Err_0 == data,
    {
        proof {
            assert((width as int) * (height as int) <= 0xFFFF_FFFF * 0xFFFF_FFFF) by (nonlinear_arith)
                requires
                    0 <= width as int <= 0xFFFF_FFFF,
                    0 <= height as int <= 0xFFFF_FFFF,
            ;
        }
        let expected: u128 = (width as u128) * (height as u128) * 3;
        if (data.len() as u128) == expected {
            Ok(Texture { data, width, height })
        } else {
            Err(data)
        }
    }
}

} // verus!
