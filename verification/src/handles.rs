//! Handles to the rendering backend's buffer, vertex-array and uniform
//! objects, and the texture error type.
//!
//! A handle only records the id the backend allocated; binding, uploading
//! and deleting are the application's business.  The one decision made
//! here is allocation itself: the backend reports a failed allocation as
//! the id zero.

use vstd::prelude::*;
use vstd::string::StringExecFns;

verus! {

/// Specifies what the type of a [`Buffer`] is.
#[derive(Clone, Copy, PartialEq, Eq, Structural, Debug)]
pub enum BufferType {
    /// Array buffers hold arrays of vertex data for drawing.
    Array,
    /// Element array buffers hold indices of what vertices to use for
    /// drawing.
    ElementArray,
}

/// A handle to a vertex buffer object of the rendering backend.
#[derive(Clone, Copy, PartialEq, Eq, Structural, Debug)]
pub struct Buffer(pub u32);

impl Buffer {
    /// Wraps the id the backend allocated for a new buffer; the backend
    /// reports failure as the id zero.
    pub fn new(raw_id: u32) -> (r: Option<Buffer>)
        ensures
            r is Some <==> raw_id != 0,
            r matches Some(b) ==> b.0 == raw_id,
    {
        if raw_id != 0 {
            Some(Buffer(raw_id))
        } else {
            None
        }
    }
}

/// A handle to a vertex array object of the rendering backend.
#[derive(Clone, Copy, PartialEq, Eq, Structural, Debug)]
pub struct VertexArray(pub u32);

impl VertexArray {
    /// Wraps the id the backend allocated for a new vertex array; the
    /// backend reports failure as the id zero.
    pub fn new(raw_id: u32) -> (r: Option<VertexArray>)
        ensures
            r is Some <==> raw_id != 0,
            r matches Some(v) ==> v.0 == raw_id,
    {
        if raw_id != 0 {
            Some(VertexArray(raw_id))
        } else {
            None
        }
    }
}

/// A handle to a uniform location within a shader program.
#[derive(Clone, Copy, PartialEq, Eq, Structural, Debug)]
pub struct Uniform(pub i32);

/// This is a texture error, reported when texture parameters are applied.
#[derive(PartialEq, Eq, Debug)]
pub enum TextureError {
    /// This error happens when the name of the texture parameter doesn't
    /// exist.
    UnknownTextureParameter(String),
}

/// One of the texture parameters the backend knows by name.
#[derive(Clone, Copy, PartialEq, Eq, Structural, Debug)]
pub enum TextureParameter {
    /// Depth component mode.
    DepthComponent,
    /// Stencil index mode.
    StencilIndex,
    /// Index of the lowest defined mipmap level.
    BaseLevel,
    /// Comparison operator for depth textures.
    CompareFunc,
    /// Comparison mode for depth textures.
    CompareMode,
    /// Fixed bias added to the level of detail.
    LodBias,
    /// Minifying filter.
    MinFilter,
    /// Magnifying filter.
    MagFilter,
    /// Lowest level of detail.
    MinLod,
    /// Highest level of detail.
    MaxLod,
    /// Swizzle of the red component.
    SwizzleR,
    /// Swizzle of the green component.
    SwizzleG,
    /// Swizzle of the blue component.
    SwizzleB,
    /// Swizzle of the alpha component.
    SwizzleA,
    /// Wrap mode for coordinate s.
    WrapS,
    /// Wrap mode for coordinate t.
    WrapT,
    /// Wrap mode for coordinate r.
    WrapR,
    /// Border color.
    BorderColor,
    /// Swizzle of all four components.
    SwizzleRgba,
}

/// The texture parameter a name denotes, or `None` for an unknown name.
pub open spec fn texture_param_of(s: Seq<char>) -> Option<TextureParameter> {
    if s == "GL_DEPTH_COMPONENT"@ {
        Some(TextureParameter::DepthComponent)
    } else if s == "GL_STENCIL_INDEX"@ {
        Some(TextureParameter::StencilIndex)
    } else if s == "GL_TEXTURE_BASE_LEVEL"@ {
        Some(TextureParameter::BaseLevel)
    } else if s == "GL_TEXTURE_COMPARE_FUNC"@ {
        Some(TextureParameter::CompareFunc)
    } else if s == "GL_TEXTURE_COMPARE_MODE"@ {
        Some(TextureParameter::CompareMode)
    } else if s == "GL_TEXTURE_LOD_BIAS"@ {
        Some(TextureParameter::LodBias)
    } else if s == "GL_TEXTURE_MIN_FILTER"@ {
        Some(TextureParameter::MinFilter)
    } else if s == "GL_TEXTURE_MAG_FILTER"@ {
        Some(TextureParameter::MagFilter)
    } else if s == "GL_TEXTURE_MIN_LOD"@ {
        Some(TextureParameter::MinLod)
    } else if s == "GL_TEXTURE_MAX_LOD"@ {
        Some(TextureParameter::MaxLod)
    } else if s == "GL_TEXTURE_SWIZZLE_R"@ {
        Some(TextureParameter::SwizzleR)
    } else if s == "GL_TEXTURE_SWIZZLE_G"@ {
        Some(TextureParameter::SwizzleG)
    } else if s == "GL_TEXTURE_SWIZZLE_B"@ {
        Some(TextureParameter::SwizzleB)
    } else if s == "GL_TEXTURE_SWIZZLE_A"@ {
        Some(TextureParameter::SwizzleA)
    } else if s == "GL_TEXTURE_WRAP_S"@ {
        Some(TextureParameter::WrapS)
    } else if s == "GL_TEXTURE_WRAP_T"@ {
        Some(TextureParameter::WrapT)
    } else if s == "GL_TEXTURE_WRAP_R"@ {
        Some(TextureParameter::WrapR)
    } else if s == "GL_TEXTURE_BORDER_COLOR"@ {
        Some(TextureParameter::BorderColor)
    } else if s == "GL_TEXTURE_SWIZZLE_RGBA"@ {
        Some(TextureParameter::SwizzleRgba)
    } else {
        None
    }
}

/// Turns a parameter name into the parameter it denotes.  An unknown name
/// gives the [`TextureError`] that reports it.
pub fn texture_param_from_name(name: &String) -> (r: Result<TextureParameter, TextureError>)
    ensures
        r is Ok <==> texture_param_of(name@) is Some,
        r matches Ok(p) ==> texture_param_of(name@) == Some(p),
        r matches Err(TextureError::UnknownTextureParameter(m)) ==> texture_param_of(name@)
            is None && m@ == name@ + " not found"@,
{
    if *name == String::from_str("GL_DEPTH_COMPONENT") {
        Ok(TextureParameter::DepthComponent)
    } else if *name == String::from_str("GL_STENCIL_INDEX") {
        Ok(TextureParameter::StencilIndex)
    } else if *name == String::from_str("GL_TEXTURE_BASE_LEVEL") {
        Ok(TextureParameter::BaseLevel)
    } else if *name == String::from_str("GL_TEXTURE_COMPARE_FUNC") {
        Ok(TextureParameter::CompareFunc)
    } else if *name == String::from_str("GL_TEXTURE_COMPARE_MODE") {
        Ok(TextureParameter::CompareMode)
    } else if *name == String::from_str("GL_TEXTURE_LOD_BIAS") {
        Ok(TextureParameter::LodBias)
    } else if *name == String::from_str("GL_TEXTURE_MIN_FILTER") {
        Ok(TextureParameter::MinFilter)
    } else if *name == String::from_str("GL_TEXTURE_MAG_FILTER") {
        Ok(TextureParameter::MagFilter)
    } else if *name == String::from_str("GL_TEXTURE_MIN_LOD") {
        Ok(TextureParameter::MinLod)
    } else if *name == String::from_str("GL_TEXTURE_MAX_LOD") {
        Ok(TextureParameter::MaxLod)
    } else if *name == String::from_str("GL_TEXTURE_SWIZZLE_R") {
        Ok(TextureParameter::SwizzleR)
    } else if *name == String::from_str("GL_TEXTURE_SWIZZLE_G") {
        Ok(TextureParameter::SwizzleG)
    } else if *name == String::from_str("GL_TEXTURE_SWIZZLE_B") {
        Ok(TextureParameter::SwizzleB)
    } else if *name == String::from_str("GL_TEXTURE_SWIZZLE_A") {
        Ok(TextureParameter::SwizzleA)
    } else if *name == String::from_str("GL_TEXTURE_WRAP_S") {
        Ok(TextureParameter::WrapS)
    } else if *name == String::from_str("GL_TEXTURE_WRAP_T") {
        Ok(TextureParameter::WrapT)
    } else if *name == String::from_str("GL_TEXTURE_WRAP_R") {
        Ok(TextureParameter::WrapR)
    } else if *name == String::from_str("GL_TEXTURE_BORDER_COLOR") {
        Ok(TextureParameter::BorderColor)
    } else if *name == String::from_str("GL_TEXTURE_SWIZZLE_RGBA") {
        Ok(TextureParameter::SwizzleRgba)
    } else {
        Err(TextureError::UnknownTextureParameter(name.clone().concat(" not found")))
    }
}

} // verus!
