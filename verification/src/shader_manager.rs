use vstd::prelude::*;

use crate::shader::Shader;

verus! {

/// The parameter block for linking one shader program: the program handle
/// and the two compiled stages the driver attaches before linking.
#[derive(Clone, Copy, Debug, PartialEq, Eq, Structural)]
pub struct LinkPlan {
    pub program: u32,
    pub vertex_shader: u32,
    pub fragment_shader: u32,
}

/// Tracks one linked shader program by the handle the driver returned.
pub struct ShaderManager {
    program: u32,
}

impl ShaderManager {
    /// The program handle this manager stands for.
    pub closed spec fn program_id(self) -> u32 {
        self.program
    }

    /// Adopts the program handle the driver created and lays out its
    /// link: attach the vertex stage, attach the fragment stage, link.
    pub fn new(program: u32, vertex_shader: &Shader, fragment_shader: &Shader) -> (r: (
        ShaderManager,
        LinkPlan,
    ))
        ensures
            r.0.program_id() == program,
            r.1 == (LinkPlan {
                program,
                vertex_shader: vertex_shader.shader_id,
                fragment_shader: fragment_shader.shader_id,
            }),
    {
        let plan = LinkPlan {
            program,
            vertex_shader: vertex_shader.shader_id,
            fragment_shader: fragment_shader.shader_id,
        };
        (ShaderManager { program }, plan)
    }

    /// The handle the front end makes current before drawing.
    pub fn use_program(&self) -> (p: u32)
        ensures
            p == self.program_id(),
    {
        self.program
    }

    /// The integer value a boolean uniform is set to at the given
    /// location: one for true, zero for false.
    pub fn set_bool(&self, location: i32, value: bool) -> (r: (i32, i32))
        ensures
            r.0 == location,
            r.1 == if value { 1i32 } else { 0i32 },
    {
        (location, if value { 1 } else { 0 })
    }

    /// The integer value an integer uniform is set to at the given
    /// location, passed through unchanged.
    pub fn set_int(&self, location: i32, value: i32) -> (r: (i32, i32))
        ensures
            r.0 == location,
            r.1 == value,
    {
        (location, value)
    }
}

} // verus!
