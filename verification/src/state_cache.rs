//! Which pipeline state must be sent to the GPU again: the last graphics
//! pipeline and render target bound, so that binding the same one twice in
//! a row binds it once.

use vstd::prelude::*;

verus! {

/// The graphics pipeline (GL program) and framebuffer bound last, if any.
pub struct StateCache {
    pub pipeline: Option<u32>,
    pub framebuffer: Option<u32>,
}

impl StateCache {
    /// Nothing bound yet.
    pub fn new() -> (r: StateCache)
        ensures
            r.pipeline is None,
            r.framebuffer is None,
    {
        StateCache { pipeline: None, framebuffer: None }
    }

    /// Records `program` as the bound pipeline; returns whether it must be
    /// bound, that is whether it differs from the one bound last.
    pub fn set_graphics_pipeline(&mut self, program: u32) -> (r: bool)
        ensures
            r == (old(self).pipeline != Some(program)),
            final(self).pipeline == Some(program),
            final(self).framebuffer == old(self).framebuffer,
    {
        let bind = match self.pipeline {
            Some(prev) => prev != program,
            None => true,
        };
        if bind {
            self.pipeline = Some(program);
        }
        bind
    }

    /// Records `framebuffer` as the bound render target; returns whether it
    /// must be bound, that is whether it differs from the one bound last.
    pub fn set_target(&mut self, framebuffer: u32) -> (r: bool)
        ensures
            r == (old(self).framebuffer != Some(framebuffer)),
            final(self).framebuffer == Some(framebuffer),
            final(self).pipeline == old(self).pipeline,
    {
        let bind = match self.framebuffer {
            Some(prev) => prev != framebuffer,
            None => true,
        };
        if bind {
            self.framebuffer = Some(framebuffer);
        }
        bind
    }
}

} // verus!
