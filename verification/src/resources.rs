//! Small descriptions shared by the renderer: buffer usage, context
//! configuration, image target formats and cache reload reasons.

use vstd::prelude::*;
use crate::texture_format::TextureFormat;

verus! {

/// How a buffer is used: written by the CPU each frame, resident on the GPU,
/// or read back by the CPU.
#[allow(non_camel_case_types)]
#[derive(Copy, Clone, Debug, PartialEq, Eq, Structural)]
pub enum BufferUsage {
    UPLOAD,
    DEFAULT,
    READBACK,
}

#[derive(Copy, Clone, Debug, PartialEq, Eq, Structural)]
pub struct ContextConfig {
    pub max_frames_in_flight: u32,
}

/// The texture format an image is loaded into.
#[derive(Copy, Clone, Debug, PartialEq, Eq, Structural)]
pub enum TargetFormat {
    /// Texture format = the one that needs the least conversion from the file
    Auto,
    /// May fail
    Required(TextureFormat),
}

/// Why a cached object is (re)loaded.
#[derive(Copy, Clone, Debug, PartialEq, Eq, Structural)]
pub enum ReloadReason {
    Initial,
    FileCreated,
    FileModified,
    FileRemoved,
}

/// Represents a resource that can be bound to the pipeline,
/// and whose lifetime can be extended
pub trait PipelineResource {

}

} // verus!
