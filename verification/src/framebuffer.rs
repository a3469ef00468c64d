//! Framebuffer attachments must all have the same size.

use vstd::prelude::*;

verus! {

/// Errors that might happen when attaching renderbuffers or textures, or creating the framebuffer
#[derive(Copy, Clone, Debug, PartialEq, Eq, Structural)]
pub enum FramebufferError {
    AttachmentSizeMismatch,
    ValidationFailed,
}

impl FramebufferError {
    /// The error message.
    pub fn message(&self) -> (r: &'static str)
        ensures
            *self == FramebufferError::AttachmentSizeMismatch ==> r@
                == "attachment size mismatch"@,
            *self == FramebufferError::ValidationFailed ==> r@
                == "framebuffer validation failed"@,
    {
        match self {
            FramebufferError::AttachmentSizeMismatch => "attachment size mismatch",
            FramebufferError::ValidationFailed => "framebuffer validation failed",
        }
    }
}

/// Checks the size of a new attachment (`None` for attachments without a
/// size) against the framebuffer size `size`, `(0, 0)` while unset: the
/// first sized attachment sets it, later ones must match it.
pub fn check_or_update_size(size: &mut (u32, u32), new: Option<(u32, u32)>) -> (r: Result<
    (),
    FramebufferError,
>)
    ensures
        match new {
            None => r is Ok && *final(size) == *old(size),
            Some(s) => if *old(size) == (0u32, 0u32) {
                r is Ok && *final(size) == s
            } else if *old(size) == s {
                r is Ok && *final(size) == *old(size)
            } else {
                r == Err::<(), FramebufferError>(FramebufferError::AttachmentSizeMismatch)
                    && *final(size) == *old(size)
            },
        },
{
    match new {
        Some(s) => {
            if size.0 == 0 && size.1 == 0 {
                *size = s;
                Ok(())
            } else if size.0 == s.0 && size.1 == s.1 {
                Ok(())
            } else {
                Err(FramebufferError::AttachmentSizeMismatch)
            }
        },
        None => Ok(()),
    }
}

} // verus!
