//! GLSL and SPIR-V shader pipelines: the compiled shader objects, the
//! SPIR-V modules they come from, and checking a host interface against
//! those modules.

use vstd::prelude::*;
use crate::interface::InterfaceError;
use crate::interface::verify_spirv_interface_checked;
use crate::interface::bytecode_list;
use crate::interface::all_parse;
use crate::interface::modules_decode;
use crate::interface::check_uniforms;
use crate::pipeline::VertexAttribute;
use crate::shader;
use crate::shader_interface::ShaderInterfaceDesc;
use crate::spirv_parse::Instruction;

verus! {

/// A compiled shader: the GL shader object and its stage.
#[derive(Debug)]
pub struct Shader {
    pub obj: u32,
    pub stage: u32,
}

impl shader::Shader for Shader {

}

impl shader::VertexShader for Shader {

}

impl shader::FragmentShader for Shader {

}

impl shader::GeometryShader for Shader {

}

impl shader::TessControlShader for Shader {

}

impl shader::TessEvalShader for Shader {

}

impl shader::ComputeShader for Shader {

}

/// The shaders of a pipeline compiled from GLSL, and their program.
#[derive(Debug)]
pub struct GlslGraphicsShaderPipeline {
    pub vertex: Shader,
    pub fragment: Shader,
    pub geometry: Option<Shader>,
    pub tess_control: Option<Shader>,
    pub tess_eval: Option<Shader>,
    pub program: u32,
}

/// A pipeline compiled from a combined GLSL source, with the input layout
/// and primitive topology that the source declares.
#[derive(Debug)]
pub struct GlslCombinedSource {
    pub shader_pipeline: GlslGraphicsShaderPipeline,
    pub input_layout: Vec<VertexAttribute>,
    pub primitive_topology: u32,
}

/// The SPIR-V modules of a pipeline.
#[derive(Debug)]
pub struct SpirvModules {
    pub vs: Vec<u32>,
    pub fs: Vec<u32>,
    pub gs: Option<Vec<u32>>,
    pub tcs: Option<Vec<u32>>,
    pub tes: Option<Vec<u32>>,
}

/// The view of an optional module.
pub open spec fn optional_module(m: Option<Vec<u32>>) -> Option<Seq<u32>> {
    match m {
        Some(v) => Some(v@),
        None => None,
    }
}

impl SpirvModules {
    /// The modules in checking order.
    pub open spec fn bytecodes(&self) -> Seq<Seq<u32>> {
        bytecode_list(
            self.vs@,
            self.fs@,
            optional_module(self.gs),
            optional_module(self.tcs),
            optional_module(self.tes),
        )
    }

    /// Checks `interface` against the modules (see
    /// `verify_spirv_interface_checked`).
    pub fn is_compatible_with_checked(&self, interface: &ShaderInterfaceDesc) -> (r: Option<
        Result<(), InterfaceError>,
    >)
        ensures
            !all_parse(self.bytecodes()) ==> r is None,
            all_parse(self.bytecodes()) ==> exists|mods: Seq<Seq<Instruction>>|
                #[trigger] modules_decode(self.bytecodes(), mods) && r == check_uniforms(
                    mods,
                    interface.uniform_constants@,
                    Map::empty(),
                    0,
                ),
    {
        let gs = match &self.gs {
            Some(v) => Some(v.as_slice()),
            None => None,
        };
        let tcs = match &self.tcs {
            Some(v) => Some(v.as_slice()),
            None => None,
        };
        let tes = match &self.tes {
            Some(v) => Some(v.as_slice()),
            None => None,
        };
        verify_spirv_interface_checked(
            interface,
            self.vs.as_slice(),
            self.fs.as_slice(),
            gs,
            tcs,
            tes,
        )
    }
}

/// The shaders of a pipeline created from SPIR-V, their program, and the
/// modules they were created from.
#[derive(Debug)]
pub struct SpirvGraphicsShaderPipeline {
    pub vertex: Shader,
    pub fragment: Shader,
    pub geometry: Option<Shader>,
    pub tess_control: Option<Shader>,
    pub tess_eval: Option<Shader>,
    pub program: u32,
    pub spirv_modules: SpirvModules,
}

/// A source and the name of its file, for error reports.
pub struct SourceWithFileName<'a> {
    pub source: &'a str,
    pub file_name: &'a str,
}

} // verus!
