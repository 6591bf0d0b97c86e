//! Shader compilation, program linking, uniform lookup and render-target
//! completeness: what each reported outcome means for the run.

use vstd::prelude::*;
use crate::error::{RenderError, ShaderStage, UniformSlot};

verus! {

/// The graphics API's code for a framebuffer that can be rendered to.
pub const FRAMEBUFFER_COMPLETE: u32 = 0x8CD5;

/// The fixed vertex stage: it passes the full-screen quad's corners through.
pub fn vertex_shader_source() -> (r: &'static str)
    ensures
        r@ == vertex_shader_text(),
{
    "#version 330 core\nlayout (location = 0) in vec3 aPos;\nvoid main() {\n    gl_Position = vec4(aPos, 1.0);\n}\n"
}

pub open spec fn vertex_shader_text() -> Seq<char> {
    "#version 330 core\nlayout (location = 0) in vec3 aPos;\nvoid main() {\n    gl_Position = vec4(aPos, 1.0);\n}\n"@
}

/// What a compile of `stage` came to. A failed compile ends the run with the
/// compiler's log, kept verbatim.
pub fn compile_outcome(stage: ShaderStage, compiled: bool, log: String) -> (r: Result<(), RenderError>)
    ensures
        r is Ok <==> compiled,
        !compiled ==> r == Err::<(), RenderError>(RenderError::Compile { stage, log }),
{
    if compiled {
        Ok(())
    } else {
        Err(RenderError::Compile { stage, log })
    }
}

/// What a link came to. A failed link ends the run with the linker's log, kept
/// verbatim.
pub fn link_outcome(linked: bool, log: String) -> (r: Result<(), RenderError>)
    ensures
        r is Ok <==> linked,
        !linked ==> r == Err::<(), RenderError>(RenderError::Link { log }),
{
    if linked {
        Ok(())
    } else {
        Err(RenderError::Link { log })
    }
}

/// What a uniform lookup came to. The graphics API answers a negative location
/// (-1) for a name the program does not have: that ends the run.
pub fn uniform_outcome(slot: UniformSlot, location: i32) -> (r: Result<i32, RenderError>)
    ensures
        r is Ok <==> location >= 0,
        r is Ok ==> r == Ok::<i32, RenderError>(location),
        r is Err ==> r == Err::<i32, RenderError>(RenderError::UniformNotFound { slot }),
{
    if location >= 0 {
        Ok(location)
    } else {
        Err(RenderError::UniformNotFound { slot })
    }
}

/// What the completeness query of the offscreen framebuffer came to.
pub fn target_outcome(status: u32) -> (r: Result<(), RenderError>)
    ensures
        r is Ok <==> status == FRAMEBUFFER_COMPLETE,
        r is Err ==> r == Err::<(), RenderError>(RenderError::IncompleteTarget { status }),
{
    if status == FRAMEBUFFER_COMPLETE {
        Ok(())
    } else {
        Err(RenderError::IncompleteTarget { status })
    }
}

} // verus!
