//! Graphics pipeline descriptions: vertex attributes, primitive topology and
//! the errors of pipeline building.

use vstd::prelude::*;

verus! {

/// A vertex attribute: the buffer slot it is read from, the GL component
/// type, the number of components, the offset within a vertex, and whether
/// integer data is normalized.
#[derive(Copy, Clone, Debug, PartialEq, Eq, Structural)]
pub struct VertexAttribute {
    pub slot: u32,
    pub ty: u32,
    pub size: u32,
    pub relative_offset: i32,
    pub normalized: bool,
}

/// The topology of the primitives passed to the GPU in vertex buffers.
#[derive(Copy, Clone, Debug, PartialEq, Eq, Structural)]
pub enum PrimitiveTopology {
    Triangle,
    Line,
    Point,
    Patch,
}

#[derive(Copy, Clone, Debug, PartialEq, Eq, Structural)]
pub enum GraphicsPipelineBuildError {
    MissingInputLayout,
    MissingShaderPipeline,
}

impl GraphicsPipelineBuildError {
    /// The error message.
    pub fn message(&self) -> (r: &'static str)
        ensures
            *self == GraphicsPipelineBuildError::MissingInputLayout ==> r@
                == "Input layout was not specified"@,
            *self == GraphicsPipelineBuildError::MissingShaderPipeline ==> r@
                == "Shader pipeline was not specified"@,
    {
        match self {
            GraphicsPipelineBuildError::MissingInputLayout => "Input layout was not specified",
            GraphicsPipelineBuildError::MissingShaderPipeline => "Shader pipeline was not specified",
        }
    }
}

} // verus!
