//! Shader and shader-program construction: the decisions behind compiling
//! and linking.
//!
//! The rendering backend allocates, compiles and links shader objects; only
//! it can do that work.  The functions here take what the backend reported
//! — the allocated id, whether a step succeeded, the info log — and decide
//! the outcome: the handle on success, and which message describes the
//! failure otherwise.  The application drives the backend and feeds the
//! reports in.

use vstd::prelude::*;
use vstd::string::StringExecFns;

verus! {

/// The kind of a shader.
#[derive(Clone, Copy, PartialEq, Eq, Structural, Debug)]
pub enum ShaderType {
    /// Vertex shaders determine the position of geometry within the screen.
    Vertex,
    /// Fragment shaders determine the color output of geometry.
    Fragment,
}

/// A handle to a shader object of the rendering backend.
#[derive(Clone, Copy, PartialEq, Eq, Structural, Debug)]
pub struct Shader(pub u32);

impl Shader {
    /// Wraps the id the backend allocated for a new shader object; the
    /// backend reports failure as the id zero.
    pub fn new(raw_id: u32) -> (r: Option<Shader>)
        ensures
            r is Some <==> raw_id != 0,
            r matches Some(s) ==> s.0 == raw_id,
    {
        if raw_id != 0 {
            Some(Shader(raw_id))
        } else {
            None
        }
    }

    /// Decides the outcome of building a shader from source.  The caller
    /// asks the backend to allocate a shader object, hand it the source and
    /// compile it, then reports the allocated id (zero when allocation
    /// failed), whether compilation succeeded, and the backend's info log.
    /// On an `Err` the caller deletes the shader object it allocated.
    pub fn from_source(raw_id: u32, compiled: bool, info_log: String) -> (r: Result<
        Shader,
        String,
    >)
        ensures
            r is Ok <==> raw_id != 0 && compiled,
            r matches Ok(s) ==> s.0 == raw_id,
            raw_id == 0 ==> (r matches Err(e) && e@ == "Unable to allocate new shader"@),
            raw_id != 0 && !compiled ==> (r matches Err(e) && e@ == info_log@),
    {
        match Self::new(raw_id) {
            None => Err(String::from_str("Unable to allocate new shader")),
            Some(shader) => {
                if compiled {
                    Ok(shader)
                } else {
                    Err(info_log)
                }
            },
        }
    }
}

/// What the backend reported while building a program from a vertex and a
/// fragment shader: the first step that failed, or the linked program's id.
/// The steps run in this order, so a later variant says the earlier steps
/// succeeded.
pub enum ProgramOutcome {
    /// The backend could not allocate a program object.
    NoProgram,
    /// The vertex shader failed to build; the payload is the error that
    /// [`Shader::from_source`] decided on.
    VertexCompile(String),
    /// The fragment shader failed to build; the payload is the error that
    /// [`Shader::from_source`] decided on.
    FragmentCompile(String),
    /// Both shaders compiled and were attached, but linking failed; the
    /// payload is the program's info log.
    LinkFailed(String),
    /// Linking succeeded; the payload is the program's id.
    Linked(u32),
}

/// A handle to a program object of the rendering backend.
#[derive(Clone, Copy, PartialEq, Eq, Structural, Debug)]
pub struct ShaderProgram(pub u32);

impl ShaderProgram {
    /// Wraps the id the backend allocated for a new program object; the
    /// backend reports failure as the id zero.
    pub fn new(raw_id: u32) -> (r: Option<ShaderProgram>)
        ensures
            r is Some <==> raw_id != 0,
            r matches Some(p) ==> p.0 == raw_id,
    {
        if raw_id != 0 {
            Some(ShaderProgram(raw_id))
        } else {
            None
        }
    }

    /// Decides the outcome of building a whole program from a vertex and a
    /// fragment shader source, given how far the backend got: the program
    /// handle when everything linked, and otherwise an error message naming
    /// the first step that failed.  On an `Err` after allocation the caller
    /// deletes the program object.
    pub fn from_vert_frag(outcome: ProgramOutcome) -> (r: Result<ShaderProgram, String>)
        ensures
            r is Ok <==> outcome is Linked,
            outcome matches ProgramOutcome::Linked(id) ==> (r matches Ok(p) && p.0 == id),
            outcome is NoProgram ==> (r matches Err(e) && e@ == "Couldn't allocate a program"@),
            outcome matches ProgramOutcome::VertexCompile(m) ==> (r matches Err(e) && e@
                == "Vertex Compile Error: "@ + m@),
            outcome matches ProgramOutcome::FragmentCompile(m) ==> (r matches Err(e) && e@
                == "Fragment Compile Error: "@ + m@),
            outcome matches ProgramOutcome::LinkFailed(m) ==> (r matches Err(e) && e@
                == "Program Link Error: "@ + m@),
    {
        match outcome {
            ProgramOutcome::NoProgram => Err(String::from_str("Couldn't allocate a program")),
            ProgramOutcome::VertexCompile(m) => Err(
                String::from_str("Vertex Compile Error: ").concat(m.as_str()),
            ),
            ProgramOutcome::FragmentCompile(m) => Err(
                String::from_str("Fragment Compile Error: ").concat(m.as_str()),
            ),
            ProgramOutcome::LinkFailed(m) => Err(
                String::from_str("Program Link Error: ").concat(m.as_str()),
            ),
            ProgramOutcome::Linked(id) => Ok(ShaderProgram(id)),
        }
    }
}

} // verus!
