//! Shader kinds.

use vstd::prelude::*;

verus! {

/// A trait representing a shader
pub trait Shader {

}

pub trait VertexShader: Shader {

}

pub trait FragmentShader: Shader {

}

pub trait GeometryShader: Shader {

}

pub trait TessControlShader: Shader {

}

pub trait TessEvalShader: Shader {

}

pub trait ComputeShader: Shader {

}

} // verus!
