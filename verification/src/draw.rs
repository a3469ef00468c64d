//! Draw commands, scissor settings, and the draw commands of a user
//! interface draw list.

use vstd::prelude::*;
use crate::gl_enums;

verus! {

/// A draw call: a range of vertices, or a range of indices with a base
/// vertex.
#[derive(Copy, Clone, Debug, PartialEq, Eq, Structural)]
pub enum DrawCmd {
    DrawArrays { first: usize, count: usize },
    DrawIndexed { first: usize, count: usize, base_vertex: usize },
}

/// Scissor test for all viewports: disabled, or the rectangle
/// (x, y, width, height).
#[derive(Copy, Clone, Debug)]
pub enum Scissors {
    All(Option<(i32, i32, i32, i32)>),
}

/// One command of a user interface draw list: the texture it samples and
/// the number of indices it draws.
#[derive(Copy, Clone, Debug, PartialEq, Eq, Structural)]
pub struct UiDrawCommand {
    pub texture_id: usize,
    pub elem_count: u32,
}

/// The number of indices drawn by the first `k` commands.
pub open spec fn indices_before(cmds: Seq<UiDrawCommand>, k: int) -> int
    decreases k,
{
    if k <= 0 || k > cmds.len() {
        0
    } else {
        indices_before(cmds, k - 1) + cmds[k - 1].elem_count
    }
}

/// The indexed draws of a draw list whose index buffer holds the indices of
/// the commands one after the other: each command draws its `elem_count`
/// indices starting after those of the previous commands, from vertex 0.
/// Every command must sample the font texture `font_texture_id`.
pub fn draw_list_commands(cmds: &[UiDrawCommand], font_texture_id: usize) -> (r: Vec<DrawCmd>)
    requires
        forall|i: int| 0 <= i < cmds@.len() ==> (#[trigger] cmds@[i]).texture_id == font_texture_id,
        indices_before(cmds@, cmds@.len() as int) <= usize::MAX,
    ensures
        r@.len() == cmds@.len(),
        forall|i: int|
            0 <= i < cmds@.len() ==> #[trigger] r@[i] == (DrawCmd::DrawIndexed {
                first: indices_before(cmds@, i) as usize,
                count: cmds@[i].elem_count as usize,
                base_vertex: 0,
            }),
{
    let mut r: Vec<DrawCmd> = Vec::new();
    let mut idx_start: usize = 0;
    let mut i: usize = 0;
    while i < cmds.len()
        invariant
            i <= cmds@.len(),
            idx_start == indices_before(cmds@, i as int),
            indices_before(cmds@, cmds@.len() as int) <= usize::MAX,
            r@.len() == i,
            forall|j: int|
                0 <= j < i ==> #[trigger] r@[j] == (DrawCmd::DrawIndexed {
                    first: indices_before(cmds@, j) as usize,
                    count: cmds@[j].elem_count as usize,
                    base_vertex: 0,
                }),
        decreases cmds@.len() - i,
    {
        proof {
            lemma_indices_before_monotone(cmds@, i + 1, cmds@.len() as int);
        }
        let count = cmds[i].elem_count as usize;
        let idx_end = idx_start + count;
        r.push(DrawCmd::DrawIndexed { first: idx_start, count, base_vertex: 0 });
        idx_start = idx_end;
        i = i + 1;
    }
    r
}

proof fn lemma_indices_before_monotone(cmds: Seq<UiDrawCommand>, a: int, b: int)
    requires
        0 <= a <= b <= cmds.len(),
    ensures
        indices_before(cmds, a) <= indices_before(cmds, b),
    decreases b - a,
{
    if a < b {
        lemma_indices_before_monotone(cmds, a, b - 1);
    }
}

/// The GL type of indices `stride` bytes wide: unsigned int for 4 bytes,
/// unsigned short for 2; no other width is supported.
pub fn index_buffer_type(stride: usize) -> (r: Option<u32>)
    ensures
        r == (if stride == 4 {
            Some(gl_enums::GL_UNSIGNED_INT)
        } else if stride == 2 {
            Some(gl_enums::GL_UNSIGNED_SHORT)
        } else {
            None::<u32>
        }),
{
    if stride == 4 {
        Some(gl_enums::GL_UNSIGNED_INT)
    } else if stride == 2 {
        Some(gl_enums::GL_UNSIGNED_SHORT)
    } else {
        None
    }
}

/// The byte offset at which an indexed draw starts reading: the offset of
/// the index buffer slice plus `first` indices of `stride` bytes.
pub fn index_byte_offset(buffer_offset: usize, first: usize, stride: usize) -> (r: usize)
    requires
        buffer_offset + first * stride <= usize::MAX,
    ensures
        r == buffer_offset + first * stride,
{
    proof {
        assert(0 <= first * stride) by (nonlinear_arith);
    }
    buffer_offset + first * stride
}

} // verus!
