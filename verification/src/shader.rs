use vstd::prelude::*;

verus! {

/// The compile-status value the driver reports for a shader that compiled.
pub const GL_TRUE: i32 = 1;

/// The two shader stages the tutorial compiles.
#[derive(Clone, Copy, Debug, PartialEq, Eq, Structural)]
pub enum ShaderType {
    FragmentShader,
    VertexShader,
}

/// A compiled shader, known to this library by the handle the driver
/// returned for it.
#[derive(Clone, Copy, Debug, PartialEq, Eq, Structural)]
pub struct Shader {
    pub shader_id: u32,
}

impl Shader {
    /// Records the handle the driver returned when the front end created
    /// and compiled a shader of the given stage.
    pub fn new(shader_id: u32) -> (s: Shader)
        ensures
            s.shader_id == shader_id,
    {
        Shader { shader_id }
    }
}

/// A compile failure: the stage that failed and the driver's info log,
/// ready to be printed by the front end.
pub struct CompileReport {
    pub stage: ShaderType,
    pub log: Vec<u8>,
}

/// Decides whether a shader compile failed. The front end queries the
/// driver for the compile status and the info log and hands both in; a
/// failure yields a report to log, and never anything worse: compilation
/// trouble is diagnosed, not fatal.
pub fn compile_report(status: i32, stage: ShaderType, log: Vec<u8>) -> (r: Option<CompileReport>)
    ensures
        r is Some <==> status != GL_TRUE,
        r is Some ==> r->0.stage == stage && r->0.log@ == log@,
{
    if status != GL_TRUE {
        Some(CompileReport { stage, log })
    } else {
        None
    }
}

} // verus!
