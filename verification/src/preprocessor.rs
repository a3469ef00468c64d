//! The preprocessor of combined GLSL sources.
//!
//! A combined source holds the code of all the stages of a pipeline, with
//! directives: `#include "file"`, `#version N`, and the pragmas
//! `stages(...)`, `input_layout(...)` and `primitive_topology(...)`. The
//! preprocessor goes through the source line by line: it copies code lines
//! (with `#line` directives after directives), records the version, the
//! stages, the input layout and the topology, and counts errors. Included
//! files are read by the caller, which processes them in turn when a line asks
//! for an include; the output for each stage is then assembled from the
//! collected state.

use vstd::prelude::*;
use crate::glsl_text::is_ws;
use crate::glsl_text::skip_ws;
use crate::glsl_text::word_end;
use crate::glsl_text::digits_end;
use crate::glsl_text::occurs_at;
use crate::glsl_text::paren_list;
use crate::glsl_text::parse_decimal;
use crate::glsl_text::decimal;
use crate::glsl_text::is_ws_char;
use crate::glsl_text::skip_ws_at;
use crate::glsl_text::word_end_at;
use crate::glsl_text::digits_end_at;
use crate::glsl_text::occurs_at_exec;
use crate::glsl_text::paren_list_exec;
use crate::glsl_text::parse_decimal_exec;
use crate::glsl_text::copy_range;
use crate::glsl_text::push_decimal;
use crate::glsl_text::push_chars;
use crate::glsl_text::chars_of;
use crate::glsl_text::string_of;
use crate::glsl_text::lemma_skip_ws;
use crate::glsl_text::lemma_word_end;
use crate::glsl_text::lemma_digits_end;
use crate::gl_enums;
use crate::pipeline::VertexAttribute;

verus! {

/// Vertex shader stage.
pub const PS_VERTEX: u32 = 1;

/// Geometry shader stage.
pub const PS_GEOMETRY: u32 = 2;

/// Fragment shader stage.
pub const PS_FRAGMENT: u32 = 4;

/// Tessellation control shader stage.
pub const PS_TESS_CONTROL: u32 = 8;

/// Tessellation evaluation shader stage.
pub const PS_TESS_EVAL: u32 = 16;

/// Compute shader stage.
pub const PS_COMPUTE: u32 = 32;

/// A set of pipeline stages, one bit per stage.
#[derive(Copy, Clone, Debug, PartialEq, Eq, Structural)]
pub struct PipelineStages {
    pub bits: u32,
}

impl PipelineStages {
    /// No stage.
    pub fn empty() -> (r: PipelineStages)
        ensures
            r.bits == 0,
    {
        PipelineStages { bits: 0 }
    }

    /// All the stages of `flags` are in the set.
    pub fn contains(&self, flags: u32) -> (r: bool)
        ensures
            r == (self.bits & flags == flags),
    {
        self.bits & flags == flags
    }
}

// ---------------------------------------------------------------------------
// Line classification

pub open spec fn kw_include() -> Seq<char> {
    seq!['#', 'i', 'n', 'c', 'l', 'u', 'd', 'e']
}

pub open spec fn kw_version() -> Seq<char> {
    seq!['#', 'v', 'e', 'r', 's', 'i', 'o', 'n']
}

pub open spec fn kw_pragma() -> Seq<char> {
    seq!['#', 'p', 'r', 'a', 'g', 'm', 'a']
}

/// Index after the last non-whitespace character of `s[..k]`.
pub open spec fn trim_end(s: Seq<char>, k: int) -> int
    decreases k,
{
    if k <= 0 || k > s.len() {
        if k <= 0 {
            0
        } else {
            s.len() as int
        }
    } else if is_ws(s[k - 1]) {
        trim_end(s, k - 1)
    } else {
        k
    }
}

/// A directive keyword at the first non-whitespace position, followed by at
/// least one whitespace character: the position after that whitespace run.
pub open spec fn directive_operand_start(l: Seq<char>, kw: Seq<char>) -> Option<int> {
    let i0 = skip_ws(l, 0);
    let i1 = i0 + kw.len();
    if occurs_at(l, i0, kw) && i1 < l.len() && is_ws(l[i1]) {
        Some(skip_ws(l, i1))
    } else {
        None
    }
}

/// What a source line is.
pub enum LineKind {
    /// `#include "path"`.
    Include(Seq<char>),
    /// `#version` with the (possibly empty) run of digits that follows.
    Version(Seq<char>),
    /// `#pragma` with the text that follows.
    Pragma(Seq<char>),
    /// Any other line.
    Code,
}

/// Classifies a line: `^\s*#include\s+"(.*)"\s*$`, then
/// `^\s*#version\s+([0-9]*)\s*$`, then `^\s*#pragma\s+(.*)$`, else code.
pub open spec fn classify_line(l: Seq<char>) -> LineKind {
    match directive_operand_start(l, kw_include()) {
        Some(i2) if i2 < l.len() && l[i2] == '"' && trim_end(l, l.len() as int) >= i2 + 2
            && l[trim_end(l, l.len() as int) - 1] == '"' => LineKind::Include(
            l.subrange(i2 + 1, trim_end(l, l.len() as int) - 1),
        ),
        _ => match directive_operand_start(l, kw_version()) {
            Some(i2) if skip_ws(l, digits_end(l, i2)) == l.len() => LineKind::Version(
                l.subrange(i2, digits_end(l, i2)),
            ),
            _ => match directive_operand_start(l, kw_pragma()) {
                Some(i2) => LineKind::Pragma(l.subrange(i2, l.len() as int)),
                None => LineKind::Code,
            },
        },
    }
}

// ---------------------------------------------------------------------------
// Pragmas

pub open spec fn kw_stages() -> Seq<char> {
    seq!['s', 't', 'a', 'g', 'e', 's']
}

pub open spec fn kw_input_layout() -> Seq<char> {
    seq!['i', 'n', 'p', 'u', 't', '_', 'l', 'a', 'y', 'o', 'u', 't']
}

pub open spec fn kw_primitive_topology() -> Seq<char> {
    seq![
        'p',
        'r',
        'i',
        'm',
        'i',
        't',
        'i',
        'v',
        'e',
        '_',
        't',
        'o',
        'p',
        'o',
        'l',
        'o',
        'g',
        'y',
    ]
}

/// What a pragma asks for.
pub enum PragmaKind {
    Stages(Seq<Seq<char>>),
    InputLayout(Seq<Seq<char>>),
    PrimitiveTopology(Seq<char>),
    Malformed,
}

/// Classifies the text of a pragma: `stages(w, ...)`, `input_layout(w, ...)`,
/// `primitive_topology(w)`, or malformed.
pub open spec fn classify_pragma(p: Seq<char>) -> PragmaKind {
    if occurs_at(p, 0, kw_stages()) && paren_list(p, 6) is Some {
        PragmaKind::Stages(paren_list(p, 6).unwrap())
    } else if occurs_at(p, 0, kw_input_layout()) && paren_list(p, 12) is Some {
        PragmaKind::InputLayout(paren_list(p, 12).unwrap())
    } else if occurs_at(p, 0, kw_primitive_topology()) && paren_list(p, 18) is Some && paren_list(
        p,
        18,
    ).unwrap().len() == 1 {
        PragmaKind::PrimitiveTopology(paren_list(p, 18).unwrap()[0])
    } else {
        PragmaKind::Malformed
    }
}

/// The stage bit that a stage name stands for; 0 for an unknown name.
pub open spec fn stage_bit(w: Seq<char>) -> u32 {
    if w == seq!['v', 'e', 'r', 't', 'e', 'x'] {
        PS_VERTEX
    } else if w == seq!['f', 'r', 'a', 'g', 'm', 'e', 'n', 't'] {
        PS_FRAGMENT
    } else if w == seq!['g', 'e', 'o', 'm', 'e', 't', 'r', 'y'] {
        PS_GEOMETRY
    } else if w == seq!['t', 'e', 's', 's', '_', 'c', 'o', 'n', 't', 'r', 'o', 'l'] {
        PS_TESS_CONTROL
    } else if w == seq!['t', 'e', 's', 's', '_', 'e', 'v', 'a', 'l'] {
        PS_TESS_EVAL
    } else if w == seq!['c', 'o', 'm', 'p', 'u', 't', 'e'] {
        PS_COMPUTE
    } else {
        0
    }
}

/// `acc` with the stages named in `words` added.
pub open spec fn add_stages(words: Seq<Seq<char>>, acc: u32) -> u32
    decreases words.len(),
{
    if words.len() == 0 {
        acc
    } else {
        add_stages(words.drop_first(), acc | stage_bit(words[0]))
    }
}

/// The number of unknown stage names in `words`.
pub open spec fn unknown_stages(words: Seq<Seq<char>>) -> int
    decreases words.len(),
{
    if words.len() == 0 {
        0
    } else {
        (if stage_bit(words[0]) == 0 {
            1int
        } else {
            0int
        }) + unknown_stages(words.drop_first())
    }
}

/// GL component type, component count and normalization of a vertex format
/// name.
pub open spec fn attrib_format(w: Seq<char>) -> Option<(u32, u32, bool)> {
    if w == seq!['r', 'g', 'b', 'a', '3', '2', 'f'] {
        Some((gl_enums::GL_FLOAT, 4, false))
    } else if w == seq!['r', 'g', 'b', '3', '2', 'f'] {
        Some((gl_enums::GL_FLOAT, 3, false))
    } else if w == seq!['r', 'g', '3', '2', 'f'] {
        Some((gl_enums::GL_FLOAT, 2, false))
    } else if w == seq!['r', '3', '2', 'f'] {
        Some((gl_enums::GL_FLOAT, 1, false))
    } else if w == seq!['r', 'g', 'b', 'a', '1', '6', '_', 's', 'n', 'o', 'r', 'm'] {
        Some((gl_enums::GL_SHORT, 4, true))
    } else if w == seq!['r', 'g', 'b', '1', '6', '_', 's', 'n', 'o', 'r', 'm'] {
        Some((gl_enums::GL_SHORT, 3, true))
    } else if w == seq!['r', 'g', '1', '6', '_', 's', 'n', 'o', 'r', 'm'] {
        Some((gl_enums::GL_SHORT, 2, true))
    } else if w == seq!['r', '1', '6', '_', 's', 'n', 'o', 'r', 'm'] {
        Some((gl_enums::GL_SHORT, 1, true))
    } else if w == seq!['r', 'g', 'b', 'a', '8', '_', 'u', 'n', 'o', 'r', 'm'] {
        Some((gl_enums::GL_UNSIGNED_BYTE, 4, true))
    } else if w == seq!['r', 'g', 'b', 'a', '8', '_', 's', 'n', 'o', 'r', 'm'] {
        Some((gl_enums::GL_BYTE, 4, true))
    } else {
        None
    }
}

/// The number of channels that an attribute format name names: the length
/// of its prefix among `r`, `rg`, `rgb`, `rgba`.
pub open spec fn named_channels(w: Seq<char>) -> int {
    if w.len() >= 1 && w[0] == 'r' {
        if w.len() >= 2 && w[1] == 'g' {
            if w.len() >= 3 && w[2] == 'b' {
                if w.len() >= 4 && w[3] == 'a' {
                    4
                } else {
                    3
                }
            } else {
                2
            }
        } else {
            1
        }
    } else {
        0
    }
}

/// The GL component type and normalization that the part of a format name
/// after its channels names: `32f` 32-bit floats, `16_snorm` normalized
/// signed shorts, `8_unorm` normalized unsigned bytes, `8_snorm` normalized
/// signed bytes.
pub open spec fn named_component(suffix: Seq<char>) -> Option<(u32, bool)> {
    if suffix == seq!['3', '2', 'f'] {
        Some((gl_enums::GL_FLOAT, false))
    } else if suffix == seq!['1', '6', '_', 's', 'n', 'o', 'r', 'm'] {
        Some((gl_enums::GL_SHORT, true))
    } else if suffix == seq!['8', '_', 'u', 'n', 'o', 'r', 'm'] {
        Some((gl_enums::GL_UNSIGNED_BYTE, true))
    } else if suffix == seq!['8', '_', 's', 'n', 'o', 'r', 'm'] {
        Some((gl_enums::GL_BYTE, true))
    } else {
        None
    }
}

/// An accepted attribute format has as many components as its name names
/// channels, and the component type and normalization its suffix names.
pub proof fn lemma_attrib_format_follows_name(w: Seq<char>)
    ensures
        attrib_format(w) matches Some((ty, size, normalized)) ==> {
            &&& size == named_channels(w)
            &&& named_component(w.skip(named_channels(w))) == Some((ty, normalized))
        },
{
    if w == seq!['r', 'g', 'b', 'a', '3', '2', 'f'] {
        assert(w.skip(4) =~= seq!['3', '2', 'f']);
    } else if w == seq!['r', 'g', 'b', '3', '2', 'f'] {
        assert(w.skip(3) =~= seq!['3', '2', 'f']);
    } else if w == seq!['r', 'g', '3', '2', 'f'] {
        assert(w.skip(2) =~= seq!['3', '2', 'f']);
    } else if w == seq!['r', '3', '2', 'f'] {
        assert(w.skip(1) =~= seq!['3', '2', 'f']);
    } else if w == seq!['r', 'g', 'b', 'a', '1', '6', '_', 's', 'n', 'o', 'r', 'm'] {
        assert(w.skip(4) =~= seq!['1', '6', '_', 's', 'n', 'o', 'r', 'm']);
    } else if w == seq!['r', 'g', 'b', '1', '6', '_', 's', 'n', 'o', 'r', 'm'] {
        assert(w.skip(3) =~= seq!['1', '6', '_', 's', 'n', 'o', 'r', 'm']);
    } else if w == seq!['r', 'g', '1', '6', '_', 's', 'n', 'o', 'r', 'm'] {
        assert(w.skip(2) =~= seq!['1', '6', '_', 's', 'n', 'o', 'r', 'm']);
    } else if w == seq!['r', '1', '6', '_', 's', 'n', 'o', 'r', 'm'] {
        assert(w.skip(1) =~= seq!['1', '6', '_', 's', 'n', 'o', 'r', 'm']);
    } else if w == seq!['r', 'g', 'b', 'a', '8', '_', 'u', 'n', 'o', 'r', 'm'] {
        assert(w.skip(4) =~= seq!['8', '_', 'u', 'n', 'o', 'r', 'm']);
    } else if w == seq!['r', 'g', 'b', 'a', '8', '_', 's', 'n', 'o', 'r', 'm'] {
        assert(w.skip(4) =~= seq!['8', '_', 's', 'n', 'o', 'r', 'm']);
    }
}

/// The attribute formats that are accepted: `r`, `rg`, `rgb` or `rgba`
/// followed by `32f` or `16_snorm`, and `rgba` followed by `8_unorm` or
/// `8_snorm`; each gives as many components as it names channels and the
/// component type its suffix names.
pub proof fn lemma_attrib_format_accepts(k: int, suffix: Seq<char>)
    requires
        1 <= k <= 4,
        suffix == seq!['3', '2', 'f'] || suffix == seq!['1', '6', '_', 's', 'n', 'o', 'r', 'm'] || (k
            == 4 && (suffix == seq!['8', '_', 'u', 'n', 'o', 'r', 'm'] || suffix == seq![
            '8',
            '_',
            's',
            'n',
            'o',
            'r',
            'm',
        ])),
    ensures
        attrib_format(seq!['r', 'g', 'b', 'a'].take(k) + suffix) == Some(
            (named_component(suffix).unwrap().0, k as u32, named_component(suffix).unwrap().1),
        ),
{
    let w = seq!['r', 'g', 'b', 'a'].take(k) + suffix;
    let f = seq!['3', '2', 'f'];
    let s16 = seq!['1', '6', '_', 's', 'n', 'o', 'r', 'm'];
    let u8n = seq!['8', '_', 'u', 'n', 'o', 'r', 'm'];
    let s8n = seq!['8', '_', 's', 'n', 'o', 'r', 'm'];
    if suffix == f {
        if k == 4 {
            assert(w =~= seq!['r', 'g', 'b', 'a', '3', '2', 'f']);
        } else if k == 3 {
            assert(w =~= seq!['r', 'g', 'b', '3', '2', 'f']);
            assert(w != seq!['r', 'g', 'b', 'a', '3', '2', 'f']);
        } else if k == 2 {
            assert(w =~= seq!['r', 'g', '3', '2', 'f']);
            assert(w != seq!['r', 'g', 'b', 'a', '3', '2', 'f']);
            assert(w != seq!['r', 'g', 'b', '3', '2', 'f']);
        } else {
            assert(w =~= seq!['r', '3', '2', 'f']);
            assert(w != seq!['r', 'g', 'b', 'a', '3', '2', 'f']);
            assert(w != seq!['r', 'g', 'b', '3', '2', 'f']);
            assert(w != seq!['r', 'g', '3', '2', 'f']);
        }
    } else if suffix == s16 {
        assert(s16 != f);
        if k == 4 {
            assert(w =~= seq!['r', 'g', 'b', 'a', '1', '6', '_', 's', 'n', 'o', 'r', 'm']);
        } else if k == 3 {
            assert(w =~= seq!['r', 'g', 'b', '1', '6', '_', 's', 'n', 'o', 'r', 'm']);
        } else if k == 2 {
            assert(w =~= seq!['r', 'g', '1', '6', '_', 's', 'n', 'o', 'r', 'm']);
        } else {
            assert(w =~= seq!['r', '1', '6', '_', 's', 'n', 'o', 'r', 'm']);
        }
    } else if suffix == u8n {
        assert(u8n != f && u8n != s16);
        assert(w =~= seq!['r', 'g', 'b', 'a', '8', '_', 'u', 'n', 'o', 'r', 'm']);
    } else {
        assert(s8n != f && s8n != s16 && s8n != u8n);
        assert(w =~= seq!['r', 'g', 'b', 'a', '8', '_', 's', 'n', 'o', 'r', 'm']);
    }
}

/// The input layout that `words` describe, as (format, slot, offset)
/// triples; `None` when a triple is incomplete, a number does not parse as a
/// `u32`, or a format is unknown.
pub open spec fn parse_layout(words: Seq<Seq<char>>) -> Option<Seq<VertexAttribute>>
    decreases words.len(),
{
    if words.len() == 0 {
        Some(Seq::empty())
    } else if words.len() < 3 {
        None
    } else {
        match (
            parse_decimal(words[1], u32::MAX as int),
            parse_decimal(words[2], u32::MAX as int),
            attrib_format(words[0]),
        ) {
            (Some(slot), Some(offset), Some((ty, size, normalized))) => match parse_layout(
                words.skip(3),
            ) {
                Some(rest) => Some(
                    seq![
                        VertexAttribute {
                            slot: slot as u32,
                            ty,
                            size,
                            relative_offset: offset as i32,
                            normalized,
                        },
                    ] + rest,
                ),
                None => None,
            },
            _ => None,
        }
    }
}

/// The GL primitive mode that a topology name stands for.
pub open spec fn topology_mode(w: Seq<char>) -> Option<u32> {
    if w == seq!['t', 'r', 'i', 'a', 'n', 'g', 'l', 'e'] {
        Some(gl_enums::GL_TRIANGLES)
    } else if w == seq!['l', 'i', 'n', 'e'] {
        Some(gl_enums::GL_LINES)
    } else {
        None
    }
}

/// `a` and `b` hold the same characters.
pub fn eq_chars(a: &[char], b: &[char]) -> (r: bool)
    ensures
        r == (a@ == b@),
{
    if a.len() != b.len() {
        return false;
    }
    let mut k: usize = 0;
    while k < a.len()
        invariant
            a@.len() == b@.len(),
            k <= a@.len(),
            forall|t: int| 0 <= t < k ==> a@[t] == b@[t],
        decreases a@.len() - k,
    {
        if a[k] != b[k] {
            return false;
        }
        k = k + 1;
    }
    proof {
        assert(a@ =~= b@);
    }
    true
}

/// The stage bit that a stage name stands for; 0 for an unknown name.
fn stage_bit_exec(w: &[char]) -> (r: u32)
    ensures
        r == stage_bit(w@),
{
    if eq_chars(w, ['v', 'e', 'r', 't', 'e', 'x'].as_slice()) {
        proof {
            assert(['v', 'e', 'r', 't', 'e', 'x']@ =~= seq!['v', 'e', 'r', 't', 'e', 'x']);
        }
        PS_VERTEX
    } else if eq_chars(w, ['f', 'r', 'a', 'g', 'm', 'e', 'n', 't'].as_slice()) {
        proof {
            assert(['f', 'r', 'a', 'g', 'm', 'e', 'n', 't']@ =~= seq!['f', 'r', 'a', 'g', 'm', 'e', 'n', 't']);
        }
        PS_FRAGMENT
    } else if eq_chars(w, ['g', 'e', 'o', 'm', 'e', 't', 'r', 'y'].as_slice()) {
        proof {
            assert(['g', 'e', 'o', 'm', 'e', 't', 'r', 'y']@ =~= seq!['g', 'e', 'o', 'm', 'e', 't', 'r', 'y']);
        }
        PS_GEOMETRY
    } else if eq_chars(w, ['t', 'e', 's', 's', '_', 'c', 'o', 'n', 't', 'r', 'o', 'l'].as_slice()) {
        proof {
            assert(['t', 'e', 's', 's', '_', 'c', 'o', 'n', 't', 'r', 'o', 'l']@ =~= seq!['t', 'e', 's', 's', '_', 'c', 'o', 'n', 't', 'r', 'o', 'l']);
        }
        PS_TESS_CONTROL
    } else if eq_chars(w, ['t', 'e', 's', 's', '_', 'e', 'v', 'a', 'l'].as_slice()) {
        proof {
            assert(['t', 'e', 's', 's', '_', 'e', 'v', 'a', 'l']@ =~= seq!['t', 'e', 's', 's', '_', 'e', 'v', 'a', 'l']);
        }
        PS_TESS_EVAL
    } else if eq_chars(w, ['c', 'o', 'm', 'p', 'u', 't', 'e'].as_slice()) {
        proof {
            assert(['c', 'o', 'm', 'p', 'u', 't', 'e']@ =~= seq!['c', 'o', 'm', 'p', 'u', 't', 'e']);
        }
        PS_COMPUTE
    } else {
        proof {
            assert(['v', 'e', 'r', 't', 'e', 'x']@ =~= seq!['v', 'e', 'r', 't', 'e', 'x']);
            assert(['f', 'r', 'a', 'g', 'm', 'e', 'n', 't']@ =~= seq!['f', 'r', 'a', 'g', 'm', 'e', 'n', 't']);
            assert(['g', 'e', 'o', 'm', 'e', 't', 'r', 'y']@ =~= seq!['g', 'e', 'o', 'm', 'e', 't', 'r', 'y']);
            assert(['t', 'e', 's', 's', '_', 'c', 'o', 'n', 't', 'r', 'o', 'l']@ =~= seq!['t', 'e', 's', 's', '_', 'c', 'o', 'n', 't', 'r', 'o', 'l']);
            assert(['t', 'e', 's', 's', '_', 'e', 'v', 'a', 'l']@ =~= seq!['t', 'e', 's', 's', '_', 'e', 'v', 'a', 'l']);
            assert(['c', 'o', 'm', 'p', 'u', 't', 'e']@ =~= seq!['c', 'o', 'm', 'p', 'u', 't', 'e']);
        }
        0
    }
}

/// GL component type, component count and normalization of a vertex format
/// name.
fn attrib_format_exec(w: &[char]) -> (r: Option<(u32, u32, bool)>)
    ensures
        r == attrib_format(w@),
{
    proof {
        assert(['r', 'g', 'b', 'a', '3', '2', 'f']@ =~= seq!['r', 'g', 'b', 'a', '3', '2', 'f']);
        assert(['r', 'g', 'b', '3', '2', 'f']@ =~= seq!['r', 'g', 'b', '3', '2', 'f']);
        assert(['r', 'g', '3', '2', 'f']@ =~= seq!['r', 'g', '3', '2', 'f']);
        assert(['r', '3', '2', 'f']@ =~= seq!['r', '3', '2', 'f']);
        assert(['r', 'g', 'b', 'a', '1', '6', '_', 's', 'n', 'o', 'r', 'm']@ =~= seq!['r', 'g', 'b', 'a', '1', '6', '_', 's', 'n', 'o', 'r', 'm']);
        assert(['r', 'g', 'b', '1', '6', '_', 's', 'n', 'o', 'r', 'm']@ =~= seq!['r', 'g', 'b', '1', '6', '_', 's', 'n', 'o', 'r', 'm']);
        assert(['r', 'g', '1', '6', '_', 's', 'n', 'o', 'r', 'm']@ =~= seq!['r', 'g', '1', '6', '_', 's', 'n', 'o', 'r', 'm']);
        assert(['r', '1', '6', '_', 's', 'n', 'o', 'r', 'm']@ =~= seq!['r', '1', '6', '_', 's', 'n', 'o', 'r', 'm']);
        assert(['r', 'g', 'b', 'a', '8', '_', 'u', 'n', 'o', 'r', 'm']@ =~= seq!['r', 'g', 'b', 'a', '8', '_', 'u', 'n', 'o', 'r', 'm']);
        assert(['r', 'g', 'b', 'a', '8', '_', 's', 'n', 'o', 'r', 'm']@ =~= seq!['r', 'g', 'b', 'a', '8', '_', 's', 'n', 'o', 'r', 'm']);
    }
    if eq_chars(w, ['r', 'g', 'b', 'a', '3', '2', 'f'].as_slice()) {
        Some((gl_enums::GL_FLOAT, 4, false))
    } else if eq_chars(w, ['r', 'g', 'b', '3', '2', 'f'].as_slice()) {
        Some((gl_enums::GL_FLOAT, 3, false))
    } else if eq_chars(w, ['r', 'g', '3', '2', 'f'].as_slice()) {
        Some((gl_enums::GL_FLOAT, 2, false))
    } else if eq_chars(w, ['r', '3', '2', 'f'].as_slice()) {
        Some((gl_enums::GL_FLOAT, 1, false))
    } else if eq_chars(w, ['r', 'g', 'b', 'a', '1', '6', '_', 's', 'n', 'o', 'r', 'm'].as_slice()) {
        Some((gl_enums::GL_SHORT, 4, true))
    } else if eq_chars(w, ['r', 'g', 'b', '1', '6', '_', 's', 'n', 'o', 'r', 'm'].as_slice()) {
        Some((gl_enums::GL_SHORT, 3, true))
    } else if eq_chars(w, ['r', 'g', '1', '6', '_', 's', 'n', 'o', 'r', 'm'].as_slice()) {
        Some((gl_enums::GL_SHORT, 2, true))
    } else if eq_chars(w, ['r', '1', '6', '_', 's', 'n', 'o', 'r', 'm'].as_slice()) {
        Some((gl_enums::GL_SHORT, 1, true))
    } else if eq_chars(w, ['r', 'g', 'b', 'a', '8', '_', 'u', 'n', 'o', 'r', 'm'].as_slice()) {
        Some((gl_enums::GL_UNSIGNED_BYTE, 4, true))
    } else if eq_chars(w, ['r', 'g', 'b', 'a', '8', '_', 's', 'n', 'o', 'r', 'm'].as_slice()) {
        Some((gl_enums::GL_BYTE, 4, true))
    } else {
        None
    }
}

/// The GL primitive mode that a topology name stands for.
fn topology_mode_exec(w: &[char]) -> (r: Option<u32>)
    ensures
        r == topology_mode(w@),
{
    proof {
        assert(['t', 'r', 'i', 'a', 'n', 'g', 'l', 'e']@ =~= seq!['t', 'r', 'i', 'a', 'n', 'g', 'l', 'e']);
        assert(['l', 'i', 'n', 'e']@ =~= seq!['l', 'i', 'n', 'e']);
    }
    if eq_chars(w, ['t', 'r', 'i', 'a', 'n', 'g', 'l', 'e'].as_slice()) {
        Some(gl_enums::GL_TRIANGLES)
    } else if eq_chars(w, ['l', 'i', 'n', 'e'].as_slice()) {
        Some(gl_enums::GL_LINES)
    } else {
        None
    }
}


/// The views of a list of words.
pub open spec fn words_view(ws: Seq<Vec<char>>) -> Seq<Seq<char>> {
    ws.map_values(|w: Vec<char>| w@)
}

/// Reads an input layout from its words (see `parse_layout`).
fn parse_layout_exec(words: &Vec<Vec<char>>) -> (r: Option<Vec<VertexAttribute>>)
    ensures
        match r {
            Some(v) => parse_layout(words_view(words@)) == Some(v@),
            None => parse_layout(words_view(words@)) is None,
        },
{
    let ghost all = words_view(words@);
    let mut layout: Vec<VertexAttribute> = Vec::new();
    let mut i: usize = 0;
    proof {
        assert(all.skip(0) =~= all);
        assert(Seq::<VertexAttribute>::empty() + Seq::<VertexAttribute>::empty() =~= Seq::<
            VertexAttribute,
        >::empty());
    }
    while i < words.len()
        invariant
            all == words_view(words@),
            i <= words@.len(),
            match parse_layout(all.skip(i as int)) {
                Some(rest) => parse_layout(all) == Some(layout@ + rest),
                None => parse_layout(all) is None,
            },
        decreases words@.len() - i,
    {
        proof {
            assert(all.skip(i as int).len() == words@.len() - i);
        }
        if words.len() - i < 3 {
            return None;
        }
        proof {
            assert(all.skip(i as int)[1] == words@[i + 1]@);
            assert(all.skip(i as int)[2] == words@[i + 2]@);
            assert(all.skip(i as int)[0] == words@[i as int]@);
            assert(all.skip(i as int).skip(3) =~= all.skip(i + 3));
        }
        let slot = match parse_decimal_exec(words[i + 1].as_slice(), u32::MAX) {
            Some(v) => v,
            None => {
                return None;
            },
        };
        let offset = match parse_decimal_exec(words[i + 2].as_slice(), u32::MAX) {
            Some(v) => v,
            None => {
                return None;
            },
        };
        let (ty, size, normalized) = match attrib_format_exec(words[i].as_slice()) {
            Some(f) => f,
            None => {
                return None;
            },
        };
        let a = VertexAttribute { slot, ty, size, relative_offset: offset as i32, normalized };
        proof {
            match parse_layout(all.skip(i + 3)) {
                Some(rest) => {
                    assert(layout@ + (seq![a] + rest) =~= layout@.push(a) + rest);
                },
                None => {},
            }
        }
        layout.push(a);
        i = i + 3;
    }
    proof {
        assert(all.skip(i as int) =~= Seq::<Seq<char>>::empty());
        assert(layout@ + Seq::<VertexAttribute>::empty() =~= layout@);
    }
    Some(layout)
}


/// Index after the last non-whitespace character of `s`.
fn trim_end_exec(s: &[char]) -> (r: usize)
    ensures
        r == trim_end(s@, s@.len() as int),
        r <= s@.len(),
{
    let mut k = s.len();
    while k > 0 && is_ws_char(s[k - 1])
        invariant
            k <= s@.len(),
            trim_end(s@, s@.len() as int) == trim_end(s@, k as int),
        decreases k,
    {
        k = k - 1;
    }
    k
}

/// See `directive_operand_start`.
fn directive_operand_start_exec(l: &[char], kw: &[char]) -> (r: Option<usize>)
    ensures
        match r {
            Some(i) => directive_operand_start(l@, kw@) == Some(i as int) && i <= l@.len(),
            None => directive_operand_start(l@, kw@) is None,
        },
{
    let i0 = skip_ws_at(l, 0);
    proof {
        lemma_skip_ws(l@, 0);
    }
    if !occurs_at_exec(l, i0, kw) {
        return None;
    }
    proof {
        assert(l@.len() == l.len());
    }
    let i1 = i0 + kw.len();
    if i1 < l.len() && is_ws_char(l[i1]) {
        proof {
            lemma_skip_ws(l@, i1 as int);
        }
        Some(skip_ws_at(l, i1))
    } else {
        None
    }
}

/// A line as `classify_line` sees it, with the operand as a range of the
/// line.
enum LineClass {
    Include(usize, usize),
    Version(usize, usize),
    Pragma(usize),
    Code,
}

fn classify_line_exec(l: &[char]) -> (r: LineClass)
    ensures
        match r {
            LineClass::Include(a, b) => a <= b <= l@.len() && classify_line(l@)
                == LineKind::Include(l@.subrange(a as int, b as int)),
            LineClass::Version(a, b) => a <= b <= l@.len() && classify_line(l@)
                == LineKind::Version(l@.subrange(a as int, b as int)),
            LineClass::Pragma(a) => a <= l@.len() && classify_line(l@) == LineKind::Pragma(
                l@.subrange(a as int, l@.len() as int),
            ),
            LineClass::Code => classify_line(l@) is Code,
        },
{
    let kw_inc = KW_INCLUDE;
    let kw_ver = KW_VERSION;
    let kw_pra = KW_PRAGMA;
    proof {
        assert(kw_inc@ =~= kw_include());
        assert(kw_ver@ =~= kw_version());
        assert(kw_pra@ =~= kw_pragma());
    }
    match directive_operand_start_exec(l, kw_inc.as_slice()) {
        Some(i2) => {
            let t = trim_end_exec(l);
            if i2 < l.len() && l[i2] == '"' && t >= 2 && t - 2 >= i2 && l[t - 1] == '"' {
                return LineClass::Include(i2 + 1, t - 1);
            }
        },
        None => {},
    }
    match directive_operand_start_exec(l, kw_ver.as_slice()) {
        Some(i2) => {
            let i3 = digits_end_at(l, i2);
            proof {
                lemma_digits_end(l@, i2 as int);
            }
            if skip_ws_at(l, i3) == l.len() {
                return LineClass::Version(i2, i3);
            }
        },
        None => {},
    }
    match directive_operand_start_exec(l, kw_pra.as_slice()) {
        Some(i2) => LineClass::Pragma(i2),
        None => LineClass::Code,
    }
}

const KW_INCLUDE: [char; 8] = ['#', 'i', 'n', 'c', 'l', 'u', 'd', 'e'];

const KW_VERSION: [char; 8] = ['#', 'v', 'e', 'r', 's', 'i', 'o', 'n'];

const LINE_DIRECTIVE: [char; 6] = ['#', 'l', 'i', 'n', 'e', ' '];

const KW_PRAGMA: [char; 7] = ['#', 'p', 'r', 'a', 'g', 'm', 'a'];

/// A pragma as `classify_pragma` sees it.
enum PragmaClass {
    Stages(Vec<Vec<char>>),
    InputLayout(Vec<Vec<char>>),
    PrimitiveTopology(Vec<char>),
    Malformed,
}

fn classify_pragma_exec(p: &[char]) -> (r: PragmaClass)
    ensures
        match r {
            PragmaClass::Stages(ws) => classify_pragma(p@) == PragmaKind::Stages(words_view(ws@)),
            PragmaClass::InputLayout(ws) => classify_pragma(p@) == PragmaKind::InputLayout(
                words_view(ws@),
            ),
            PragmaClass::PrimitiveTopology(w) => classify_pragma(p@) == PragmaKind::PrimitiveTopology(
                w@,
            ),
            PragmaClass::Malformed => classify_pragma(p@) is Malformed,
        },
{
    let kw_st = ['s', 't', 'a', 'g', 'e', 's'];
    let kw_il = ['i', 'n', 'p', 'u', 't', '_', 'l', 'a', 'y', 'o', 'u', 't'];
    let kw_pt = ['p', 'r', 'i', 'm', 'i', 't', 'i', 'v', 'e', '_', 't', 'o', 'p', 'o', 'l', 'o', 'g', 'y'];
    proof {
        assert(kw_st@ =~= kw_stages());
        assert(kw_il@ =~= kw_input_layout());
        assert(kw_pt@ =~= kw_primitive_topology());
    }
    if occurs_at_exec(p, 0, kw_st.as_slice()) && p.len() >= 6 {
        match paren_list_exec(p, 6) {
            Some(ws) => {
                return PragmaClass::Stages(ws);
            },
            None => {},
        }
    }
    if occurs_at_exec(p, 0, kw_il.as_slice()) && p.len() >= 12 {
        match paren_list_exec(p, 12) {
            Some(ws) => {
                return PragmaClass::InputLayout(ws);
            },
            None => {},
        }
    }
    if occurs_at_exec(p, 0, kw_pt.as_slice()) && p.len() >= 18 {
        match paren_list_exec(p, 18) {
            Some(ws) => {
                if ws.len() == 1 {
                    let w = copy_range(ws[0].as_slice(), 0, ws[0].len());
                    proof {
                        assert(w@ =~= words_view(ws@)[0]);
                    }
                    return PragmaClass::PrimitiveTopology(w);
                }
            },
            None => {},
        }
    }
    PragmaClass::Malformed
}

// ---------------------------------------------------------------------------
// Preprocessing state

/// What preprocessing has collected so far: the output, the version, the
/// enabled stages, the input layout, the primitive topology, the number of
/// errors, and the number of files started.
pub struct PreprocessorState {
    pub preprocessed: Vec<char>,
    pub last_seen_version: Option<i32>,
    pub enabled_pipeline_stages: PipelineStages,
    pub input_layout: Option<Vec<VertexAttribute>>,
    pub primitive_topology: Option<u32>,
    pub num_errors: i32,
    pub num_files: i32,
}

/// The position in the file being preprocessed: its index in the source
/// map, the current line number, and whether a `#line` directive must
/// precede the next code line.
#[derive(Copy, Clone, Debug, PartialEq, Eq, Structural)]
pub struct FileCursor {
    pub index: i32,
    pub cur_line: i32,
    pub should_output_line_directive: bool,
}

/// What the caller does after a line: go on, or preprocess the file at
/// `path` (relative to the directory of the current file) first.
pub enum LineAction {
    Continue,
    Include(String),
}

/// The mathematical view of a `PreprocessorState`.
pub struct StateView {
    pub preprocessed: Seq<char>,
    pub last_seen_version: Option<i32>,
    pub stages: u32,
    pub input_layout: Option<Seq<VertexAttribute>>,
    pub primitive_topology: Option<u32>,
    pub num_errors: int,
    pub num_files: int,
}

impl View for PreprocessorState {
    type V = StateView;

    open spec fn view(&self) -> StateView {
        StateView {
            preprocessed: self.preprocessed@,
            last_seen_version: self.last_seen_version,
            stages: self.enabled_pipeline_stages.bits,
            input_layout: match self.input_layout {
                Some(v) => Some(v@),
                None => None,
            },
            primitive_topology: self.primitive_topology,
            num_errors: self.num_errors as int,
            num_files: self.num_files as int,
        }
    }
}

/// `s` with `n` more errors.
pub open spec fn with_errors(s: StateView, n: int) -> StateView {
    StateView { num_errors: s.num_errors + n, ..s }
}

/// The effect of the pragma `p`: stages are added (unknown names are
/// errors); an input layout or a topology is set once (a second one, or a
/// malformed one, is an error); anything else is an error.
pub open spec fn pragma_step(p: Seq<char>, s: StateView) -> StateView {
    match classify_pragma(p) {
        PragmaKind::Stages(ws) => StateView {
            stages: add_stages(ws, s.stages),
            num_errors: s.num_errors + unknown_stages(ws),
            ..s
        },
        PragmaKind::InputLayout(ws) => if s.input_layout is Some {
            with_errors(s, 1)
        } else {
            match parse_layout(ws) {
                Some(v) => StateView { input_layout: Some(v), ..s },
                None => with_errors(s, 1),
            }
        },
        PragmaKind::PrimitiveTopology(w) => if s.primitive_topology is Some {
            with_errors(s, 1)
        } else {
            match topology_mode(w) {
                Some(m) => StateView { primitive_topology: Some(m), ..s },
                None => with_errors(s, 1),
            }
        },
        PragmaKind::Malformed => with_errors(s, 1),
    }
}

/// The `#line` directive that precedes a code line after a directive.
pub open spec fn line_directive(cur_line: i32, index: i32) -> Seq<char> {
    seq!['#', 'l', 'i', 'n', 'e', ' '] + decimal(cur_line as int) + seq![' '] + decimal(
        index as int,
    ) + seq!['\n']
}

/// The cursor after a line that counts (includes, versions, code).
pub open spec fn next_line(c: FileCursor, should_output: bool) -> FileCursor {
    FileCursor {
        index: c.index,
        cur_line: (c.cur_line + 1) as i32,
        should_output_line_directive: should_output,
    }
}

/// Preprocessing one line `l`: the new state, the new cursor, and the path
/// to include, if any. Includes and versions are followed by a `#line`
/// directive; a version that does not parse as an `i32` is an error;
/// pragma lines do not count as lines; code lines are copied.
pub open spec fn line_step(l: Seq<char>, s: StateView, c: FileCursor) -> (
    StateView,
    FileCursor,
    Option<Seq<char>>,
) {
    match classify_line(l) {
        LineKind::Include(path) => (s, next_line(c, true), Some(path)),
        LineKind::Version(d) => (
            match parse_decimal(d, i32::MAX as int) {
                Some(v) => StateView { last_seen_version: Some(v as i32), ..s },
                None => with_errors(s, 1),
            },
            next_line(c, true),
            None,
        ),
        LineKind::Pragma(p) => (pragma_step(p, s), c, None),
        LineKind::Code => (
            StateView {
                preprocessed: s.preprocessed + (if c.should_output_line_directive {
                    line_directive(c.cur_line, c.index)
                } else {
                    Seq::empty()
                }) + l.push('\n'),
                ..s
            },
            next_line(c, false),
            None,
        ),
    }
}

proof fn lemma_unknown_stages_nonneg(ws: Seq<Seq<char>>)
    ensures
        unknown_stages(ws) >= 0,
    decreases ws.len(),
{
    if ws.len() > 0 {
        lemma_unknown_stages_nonneg(ws.drop_first());
    }
}

proof fn lemma_add_stages_keeps(ws: Seq<Seq<char>>, acc: u32)
    ensures
        add_stages(ws, acc) & acc == acc,
    decreases ws.len(),
{
    if ws.len() > 0 {
        let b = stage_bit(ws[0]);
        lemma_add_stages_keeps(ws.drop_first(), acc | b);
        let x = add_stages(ws, acc);
        assert(x & acc == acc) by (bit_vector)
            requires
                x & (acc | b) == (acc | b),
        ;
    } else {
        assert(acc & acc == acc) by (bit_vector);
    }
}

/// Preprocessing a line only adds to the state: no stage is removed, the
/// error count does not decrease, the output only grows at its end, an input
/// layout or a primitive topology once set is kept, a version once seen stays
/// seen, and the files started are unchanged.
pub proof fn lemma_line_step_only_adds(l: Seq<char>, s: StateView, c: FileCursor)
    ensures
        ({
            let s2 = line_step(l, s, c).0;
            &&& s2.stages & s.stages == s.stages
            &&& s2.num_errors >= s.num_errors
            &&& s2.preprocessed.len() >= s.preprocessed.len()
            &&& s2.preprocessed.subrange(0, s.preprocessed.len() as int) == s.preprocessed
            &&& s.input_layout is Some ==> s2.input_layout == s.input_layout
            &&& s.primitive_topology is Some ==> s2.primitive_topology == s.primitive_topology
            &&& s.last_seen_version is Some ==> s2.last_seen_version is Some
            &&& s2.num_files == s.num_files
        }),
{
    let s2 = line_step(l, s, c).0;
    let acc = s.stages;
    assert(acc & acc == acc) by (bit_vector);
    match classify_line(l) {
        LineKind::Pragma(p) => match classify_pragma(p) {
            PragmaKind::Stages(ws) => {
                lemma_add_stages_keeps(ws, s.stages);
                lemma_unknown_stages_nonneg(ws);
            },
            _ => {},
        },
        LineKind::Code => {
            assert(s2.preprocessed.subrange(0, s.preprocessed.len() as int) =~= s.preprocessed);
        },
        _ => {},
    }
    assert(s2.preprocessed.subrange(0, s.preprocessed.len() as int) =~= s.preprocessed);
}

/// The state and cursor after the lines `ls` of one file, in order.
pub open spec fn lines_step(ls: Seq<Seq<char>>, s: StateView, c: FileCursor) -> (StateView, FileCursor)
    decreases ls.len(),
{
    if ls.len() == 0 {
        (s, c)
    } else {
        let p = lines_step(ls.drop_last(), s, c);
        let r = line_step(ls.last(), p.0, p.1);
        (r.0, r.1)
    }
}

/// The text of the code lines of `ls`, in order, each followed by a line
/// end and preceded by `ds` at its position.
pub open spec fn code_text(ls: Seq<Seq<char>>, ds: Seq<Seq<char>>) -> Seq<char>
    decreases ls.len(),
{
    if ls.len() == 0 {
        Seq::empty()
    } else {
        code_text(ls.drop_last(), ds.drop_last()) + if classify_line(ls.last()) is Code {
            ds.last() + ls.last().push('\n')
        } else {
            Seq::empty()
        }
    }
}

/// Nothing, or a `#line` directive.
pub open spec fn is_line_marker(d: Seq<char>) -> bool {
    d.len() == 0 || exists|n: i32, i: i32| d == line_directive(n, i)
}

/// What is put before each of the lines `ls`: a `#line` directive where
/// the cursor asks for one, nothing otherwise.
pub open spec fn line_markers(ls: Seq<Seq<char>>, s: StateView, c: FileCursor) -> Seq<Seq<char>>
    decreases ls.len(),
{
    if ls.len() == 0 {
        Seq::empty()
    } else {
        let p = lines_step(ls.drop_last(), s, c);
        line_markers(ls.drop_last(), s, c).push(
            if p.1.should_output_line_directive {
                line_directive(p.1.cur_line, p.1.index)
            } else {
                Seq::empty()
            },
        )
    }
}

proof fn lemma_lines_output(ls: Seq<Seq<char>>, s: StateView, c: FileCursor)
    requires
        forall|k: int| 0 <= k < ls.len() ==> !(classify_line(#[trigger] ls[k]) is Include),
    ensures
        line_markers(ls, s, c).len() == ls.len(),
        forall|k: int| 0 <= k < ls.len() ==> is_line_marker(#[trigger] line_markers(ls, s, c)[k]),
        lines_step(ls, s, c).0.preprocessed == s.preprocessed + code_text(ls, line_markers(ls, s, c)),
    decreases ls.len(),
{
    if ls.len() == 0 {
        assert(s.preprocessed + Seq::<char>::empty() =~= s.preprocessed);
    } else {
        let pre = ls.drop_last();
        assert forall|k: int| 0 <= k < pre.len() implies !(classify_line(#[trigger] pre[k]) is Include) by {
            assert(pre[k] == ls[k]);
        }
        lemma_lines_output(pre, s, c);
        let ms = line_markers(ls, s, c);
        let pms = line_markers(pre, s, c);
        assert(ms.drop_last() =~= pms);
        let p = lines_step(pre, s, c);
        let l = ls.last();
        assert(!(classify_line(ls[ls.len() - 1]) is Include));
        assert forall|k: int| 0 <= k < ls.len() implies is_line_marker(#[trigger] ms[k]) by {
            if k < ls.len() - 1 {
                assert(ms[k] == pms[k]);
            } else if p.1.should_output_line_directive {
                let d = line_directive(p.1.cur_line, p.1.index);
                assert(ms[k] == d);
            }
        }
        match classify_line(l) {
            LineKind::Pragma(q) => {
                assert(lines_step(ls, s, c).0.preprocessed == p.0.preprocessed);
                assert(s.preprocessed + code_text(ls, ms) =~= s.preprocessed + code_text(pre, pms));
            },
            LineKind::Code => {
                assert(s.preprocessed + code_text(ls, ms) =~= s.preprocessed + code_text(pre, pms) + (
                ms.last() + l.push('\n')));
            },
            _ => {
                assert(s.preprocessed + code_text(ls, ms) =~= s.preprocessed + code_text(pre, pms));
            },
        }
    }
}

/// Preprocessing the lines of a file without includes copies its code lines
/// and nothing else: the output grows by the code lines (all lines but the
/// `#version` and `#pragma` directives), in order, each followed by a line
/// end, and before each of them at most a `#line` directive.
pub proof fn lemma_file_copies_code_lines(ls: Seq<Seq<char>>, s: StateView, c: FileCursor)
    requires
        forall|k: int| 0 <= k < ls.len() ==> !(classify_line(#[trigger] ls[k]) is Include),
    ensures
        exists|ds: Seq<Seq<char>>|
            {
                &&& ds.len() == ls.len()
                &&& forall|k: int| 0 <= k < ds.len() ==> is_line_marker(#[trigger] ds[k])
                &&& #[trigger] lines_step(ls, s, c).0.preprocessed == s.preprocessed + code_text(ls, ds)
            },
{
    lemma_lines_output(ls, s, c);
    let ds = line_markers(ls, s, c);
    assert(lines_step(ls, s, c).0.preprocessed == s.preprocessed + code_text(ls, ds));
}

impl PreprocessorState {
    /// An empty state: no output, no version, no stage, no layout, no
    /// topology, no error, no file.
    pub fn new() -> (r: PreprocessorState)
        ensures
            r@ == (StateView {
                preprocessed: Seq::empty(),
                last_seen_version: None,
                stages: 0,
                input_layout: None,
                primitive_topology: None,
                num_errors: 0,
                num_files: 0,
            }),
    {
        PreprocessorState {
            preprocessed: Vec::new(),
            last_seen_version: None,
            enabled_pipeline_stages: PipelineStages::empty(),
            input_layout: None,
            primitive_topology: None,
            num_errors: 0,
            num_files: 0,
        }
    }

    /// Starts a file: it gets the next index of the source map; its lines
    /// count from 1.
    pub fn begin_file(&mut self) -> (r: FileCursor)
        requires
            old(self).num_files < i32::MAX,
        ensures
            r == (FileCursor {
                index: old(self).num_files,
                cur_line: 1,
                should_output_line_directive: false,
            }),
            final(self)@ == (StateView { num_files: old(self)@.num_files + 1, ..old(self)@ }),
    {
        let index = self.num_files;
        self.num_files = self.num_files + 1;
        FileCursor { index, cur_line: 1, should_output_line_directive: false }
    }

    /// Counts an include file that could not be read as an error.
    pub fn include_failed(&mut self)
        requires
            old(self).num_errors < i32::MAX,
        ensures
            final(self)@ == with_errors(old(self)@, 1),
    {
        self.num_errors = self.num_errors + 1;
    }

    /// Ends an included file: errors inside it were reported there and are
    /// not counted for the including file, whose count goes back to
    /// `errors_before`, the count when the include line was reached; all
    /// else the included file added stays.
    pub fn end_include(&mut self, errors_before: i32)
        ensures
            final(self)@ == (StateView { num_errors: errors_before as int, ..old(self)@ }),
    {
        self.num_errors = errors_before;
    }

    /// Applies the pragma `p` (see `pragma_step`).
    fn preprocess_pragma(&mut self, p: &[char])
        requires
            pragma_step(p@, old(self)@).num_errors <= i32::MAX,
        ensures
            final(self)@ == pragma_step(p@, old(self)@),
    {
        match classify_pragma_exec(p) {
            PragmaClass::Stages(ws) => {
                let ghost wv = words_view(ws@);
                let ghost target = pragma_step(p@, old(self)@);
                let mut k: usize = 0;
                proof {
                    assert(wv.skip(0) =~= wv);
                    lemma_unknown_stages_nonneg(wv);
                }
                while k < ws.len()
                    invariant
                        wv == words_view(ws@),
                        k <= ws@.len(),
                        target == pragma_step(p@, old(self)@),
                        target.stages == add_stages(wv.skip(k as int), self@.stages),
                        target.num_errors == self@.num_errors + unknown_stages(wv.skip(k as int)),
                        target.num_errors <= i32::MAX,
                        self@ == (StateView {
                            stages: self@.stages,
                            num_errors: self@.num_errors,
                            ..old(self)@
                        }),
                    decreases ws@.len() - k,
                {
                    proof {
                        assert(wv.skip(k as int).drop_first() =~= wv.skip(k + 1));
                        assert(wv.skip(k as int)[0] == ws@[k as int]@);
                        lemma_unknown_stages_nonneg(wv.skip(k + 1));
                    }
                    let bit = stage_bit_exec(ws[k].as_slice());
                    self.enabled_pipeline_stages = PipelineStages {
                        bits: self.enabled_pipeline_stages.bits | bit,
                    };
                    if bit == 0 {
                        self.num_errors = self.num_errors + 1;
                    }
                    k = k + 1;
                }
                proof {
                    assert(wv.skip(k as int) =~= Seq::<Seq<char>>::empty());
                }
            },
            PragmaClass::InputLayout(ws) => {
                if self.input_layout.is_some() {
                    self.num_errors = self.num_errors + 1;
                } else {
                    match parse_layout_exec(&ws) {
                        Some(layout) => {
                            self.input_layout = Some(layout);
                        },
                        None => {
                            self.num_errors = self.num_errors + 1;
                        },
                    }
                }
            },
            PragmaClass::PrimitiveTopology(w) => {
                if self.primitive_topology.is_some() {
                    self.num_errors = self.num_errors + 1;
                } else {
                    match topology_mode_exec(w.as_slice()) {
                        Some(m) => {
                            self.primitive_topology = Some(m);
                        },
                        None => {
                            self.num_errors = self.num_errors + 1;
                        },
                    }
                }
            },
            PragmaClass::Malformed => {
                self.num_errors = self.num_errors + 1;
            },
        }
    }

    /// Preprocesses one line of the file at `cursor` (see `line_step`). For
    /// an include, the caller preprocesses the included file (with its own
    /// cursor, from `begin_file`) or reports `include_failed`.
    pub fn preprocess_line(&mut self, cursor: &mut FileCursor, line: &str) -> (r: LineAction)
        requires
            line_step(line@, old(self)@, *old(cursor)).0.num_errors <= i32::MAX,
            old(cursor).cur_line < i32::MAX,
        ensures
            final(self)@ == line_step(line@, old(self)@, *old(cursor)).0,
            *final(cursor) == line_step(line@, old(self)@, *old(cursor)).1,
            match line_step(line@, old(self)@, *old(cursor)).2 {
                Some(path) => r matches LineAction::Include(s) && s@ == path,
                None => r is Continue,
            },
    {
        let l = chars_of(line);
        match classify_line_exec(l.as_slice()) {
            LineClass::Include(a, b) => {
                let path = copy_range(l.as_slice(), a, b);
                cursor.should_output_line_directive = true;
                cursor.cur_line = cursor.cur_line + 1;
                LineAction::Include(string_of(path.as_slice()))
            },
            LineClass::Version(a, b) => {
                let digits = copy_range(l.as_slice(), a, b);
                match parse_decimal_exec(digits.as_slice(), 0x7fff_ffff) {
                    Some(ver) => {
                        self.last_seen_version = Some(ver as i32);
                    },
                    None => {
                        self.num_errors = self.num_errors + 1;
                    },
                }
                cursor.should_output_line_directive = true;
                cursor.cur_line = cursor.cur_line + 1;
                LineAction::Continue
            },
            LineClass::Pragma(a) => {
                let p = copy_range(l.as_slice(), a, l.len());
                self.preprocess_pragma(p.as_slice());
                LineAction::Continue
            },
            LineClass::Code => {
                if cursor.should_output_line_directive {
                    let head = LINE_DIRECTIVE;
                    proof {
                        assert(head@ =~= seq!['#', 'l', 'i', 'n', 'e', ' ']);
                    }
                    push_chars(&mut self.preprocessed, head.as_slice());
                    push_decimal(&mut self.preprocessed, cursor.cur_line as i64);
                    self.preprocessed.push(' ');
                    push_decimal(&mut self.preprocessed, cursor.index as i64);
                    self.preprocessed.push('\n');
                    cursor.should_output_line_directive = false;
                }
                push_chars(&mut self.preprocessed, l.as_slice());
                self.preprocessed.push('\n');
                cursor.cur_line = cursor.cur_line + 1;
                proof {
                    if old(cursor).should_output_line_directive {
                        assert(self.preprocessed@ =~= old(self).preprocessed@ + line_directive(
                            old(cursor).cur_line,
                            old(cursor).index,
                        ) + line@.push('\n'));
                    } else {
                        assert(self.preprocessed@ =~= old(self).preprocessed@ + Seq::<
                            char,
                        >::empty() + line@.push('\n'));
                    }
                }
                LineAction::Continue
            },
        }
    }
}

// ---------------------------------------------------------------------------
// Assembling the stages

/// A macro definition `NAME` or `NAME=VALUE` (`\w+`, `\w*`): the name and
/// the value, if any.
pub open spec fn macro_parts(m: Seq<char>) -> Option<(Seq<char>, Option<Seq<char>>)> {
    let e = word_end(m, 0);
    if e <= 0 {
        None
    } else if e == m.len() {
        Some((m.subrange(0, e), None))
    } else if 0 <= e < m.len() && m[e] == '=' && word_end(m, e + 1) == m.len() {
        Some((m.subrange(0, e), Some(m.subrange(e + 1, m.len() as int))))
    } else {
        None
    }
}

/// The header text of a macro definition: `#define NAME`, then ` VALUE` and
/// a line end when there is a value.
pub open spec fn macro_text(m: Seq<char>) -> Seq<char> {
    match macro_parts(m) {
        Some((name, value)) => seq!['#', 'd', 'e', 'f', 'i', 'n', 'e', ' '] + name + match value {
            Some(v) => seq![' '] + v + seq!['\n'],
            None => Seq::empty(),
        },
        None => Seq::empty(),
    }
}

/// The header texts of the macro definitions `ms`, in order.
pub open spec fn macros_text(ms: Seq<Seq<char>>) -> Seq<char>
    decreases ms.len(),
{
    if ms.len() == 0 {
        Seq::empty()
    } else {
        macros_text(ms.drop_last()) + macro_text(ms.last())
    }
}

/// The header of every stage: the version (330 when none was seen) and the
/// macro definitions.
pub open spec fn shader_header(version: Option<i32>, ms: Seq<Seq<char>>) -> Seq<char> {
    let v = match version {
        Some(v) => v as int,
        None => 330,
    };
    seq!['#', 'v', 'e', 'r', 's', 'i', 'o', 'n', ' '] + decimal(v) + seq!['\n'] + macros_text(ms)
}

/// The macro that marks the stage `stage`.
pub open spec fn stage_define(stage: u32) -> Seq<char> {
    if stage == PS_VERTEX {
        seq!['_', 'V', 'E', 'R', 'T', 'E', 'X', '_']
    } else if stage == PS_FRAGMENT {
        seq!['_', 'F', 'R', 'A', 'G', 'M', 'E', 'N', 'T', '_']
    } else if stage == PS_GEOMETRY {
        seq!['_', 'G', 'E', 'O', 'M', 'E', 'T', 'R', 'Y', '_']
    } else if stage == PS_TESS_CONTROL {
        seq!['_', 'T', 'E', 'S', 'S', '_', 'C', 'O', 'N', 'T', 'R', 'O', 'L', '_']
    } else if stage == PS_TESS_EVAL {
        seq!['_', 'T', 'E', 'S', 'S', '_', 'E', 'V', 'A', 'L', '_']
    } else if stage == PS_COMPUTE {
        seq!['_', 'C', 'O', 'M', 'P', 'U', 'T', 'E', '_']
    } else {
        Seq::empty()
    }
}

/// The source of the stage `stage`: the header, the stage macro, a `#line`
/// reset and the preprocessed text.
pub open spec fn stage_source(header: Seq<char>, stage: u32, preprocessed: Seq<char>) -> Seq<char> {
    header + seq!['#', 'd', 'e', 'f', 'i', 'n', 'e', ' '] + stage_define(stage) + seq!['\n'] + seq!['#', 'l', 'i', 'n', 'e', ' ', '0', ' ', '0', '\n'] + preprocessed
}

/// The source of `stage` when it is enabled in `stages`.
pub open spec fn stage_variant(header: Seq<char>, stages: u32, stage: u32, preprocessed: Seq<char>) -> Option<Seq<char>> {
    if stages & stage == stage {
        Some(stage_source(header, stage, preprocessed))
    } else {
        None
    }
}

/// The output of preprocessing: the source of each enabled stage, the input
/// layout and the primitive topology.
#[derive(Debug)]
pub struct PreprocessedShaders {
    pub vertex: Option<String>,
    pub fragment: Option<String>,
    pub geometry: Option<String>,
    pub tess_control: Option<String>,
    pub tess_eval: Option<String>,
    pub compute: Option<String>,
    pub input_layout: Option<Vec<VertexAttribute>>,
    pub primitive_topology: Option<u32>,
}

/// The view of an optional string.
pub open spec fn opt_string_view(o: Option<String>) -> Option<Seq<char>> {
    match o {
        Some(s) => Some(s@),
        None => None,
    }
}

/// The views of the macro definitions.
pub open spec fn macro_views(ms: Seq<&str>) -> Seq<Seq<char>> {
    ms.map_values(|m: &str| m@)
}

/// Whether `m` is a macro definition `NAME` or `NAME=VALUE`.
pub fn is_macro_definition(m: &str) -> (r: bool)
    ensures
        r == (macro_parts(m@) is Some),
{
    let c = chars_of(m);
    let e = word_end_at(c.as_slice(), 0);
    proof {
        lemma_word_end(c@, 0);
    }
    if e == 0 {
        return false;
    }
    if e == c.len() {
        return true;
    }
    if c[e] != '=' {
        return false;
    }
    let e2 = word_end_at(c.as_slice(), e + 1);
    proof {
        lemma_word_end(c@, e + 1);
    }
    e2 == c.len()
}

fn push_macro(out: &mut Vec<char>, m: &str)
    requires
        macro_parts(m@) is Some,
    ensures
        final(out)@ == old(out)@ + macro_text(m@),
{
    let c = chars_of(m);
    let e = word_end_at(c.as_slice(), 0);
    proof {
        lemma_word_end(c@, 0);
    }
    let define = ['#', 'd', 'e', 'f', 'i', 'n', 'e', ' '];
    proof {
        assert(define@ =~= seq!['#', 'd', 'e', 'f', 'i', 'n', 'e', ' ']);
    }
    push_chars(out, define.as_slice());
    let name = copy_range(c.as_slice(), 0, e);
    push_chars(out, name.as_slice());
    if e < c.len() {
        let value = copy_range(c.as_slice(), e + 1, c.len());
        out.push(' ');
        push_chars(out, value.as_slice());
        out.push('\n');
        proof {
            assert(final(out)@ =~= old(out)@ + macro_text(m@));
        }
    } else {
        proof {
            assert(final(out)@ =~= old(out)@ + macro_text(m@));
        }
    }
}

fn stage_variant_exec(
    header: &Vec<char>,
    stages: PipelineStages,
    stage: u32,
    def: &[char],
    preprocessed: &Vec<char>,
) -> (r: Option<String>)
    requires
        def@ == stage_define(stage),
    ensures
        opt_string_view(r) == stage_variant(header@, stages.bits, stage, preprocessed@),
{
    if stages.contains(stage) {
        let mut out: Vec<char> = Vec::new();
        push_chars(&mut out, header.as_slice());
        let define = ['#', 'd', 'e', 'f', 'i', 'n', 'e', ' '];
        let reset = ['#', 'l', 'i', 'n', 'e', ' ', '0', ' ', '0', '\n'];
        proof {
            assert(define@ =~= seq!['#', 'd', 'e', 'f', 'i', 'n', 'e', ' ']);
            assert(reset@ =~= seq!['#', 'l', 'i', 'n', 'e', ' ', '0', ' ', '0', '\n']);
        }
        push_chars(&mut out, define.as_slice());
        push_chars(&mut out, def);
        out.push('\n');
        push_chars(&mut out, reset.as_slice());
        push_chars(&mut out, preprocessed.as_slice());
        proof {
            assert(out@ =~= stage_source(header@, stage, preprocessed@));
        }
        Some(string_of(out.as_slice()))
    } else {
        None
    }
}

impl PreprocessorState {
    /// Assembles the source of each enabled stage from the collected state
    /// and the macro definitions `macros` (each `NAME` or `NAME=VALUE`).
    pub fn assemble_shaders(self, macros: &[&str]) -> (r: (PipelineStages, PreprocessedShaders))
        requires
            forall|i: int| 0 <= i < macros@.len() ==> macro_parts(#[trigger] macros@[i]@) is Some,
        ensures
            ({
                let header = shader_header(self.last_seen_version, macro_views(macros@));
                let pre = self.preprocessed@;
                let st = self.enabled_pipeline_stages.bits;
                &&& r.0 == self.enabled_pipeline_stages
                &&& opt_string_view(r.1.vertex) == stage_variant(header, st, PS_VERTEX, pre)
                &&& opt_string_view(r.1.fragment) == stage_variant(header, st, PS_FRAGMENT, pre)
                &&& opt_string_view(r.1.geometry) == stage_variant(header, st, PS_GEOMETRY, pre)
                &&& opt_string_view(r.1.tess_control) == stage_variant(header, st, PS_TESS_CONTROL, pre)
                &&& opt_string_view(r.1.tess_eval) == stage_variant(header, st, PS_TESS_EVAL, pre)
                &&& opt_string_view(r.1.compute) == stage_variant(header, st, PS_COMPUTE, pre)
                &&& r.1.input_layout == self.input_layout
                &&& r.1.primitive_topology == self.primitive_topology
            }),
    {
        let version: i32 = match self.last_seen_version {
            Some(v) => v,
            None => 330,
        };
        let mut header: Vec<char> = Vec::new();
        let ver = ['#', 'v', 'e', 'r', 's', 'i', 'o', 'n', ' '];
        proof {
            assert(ver@ =~= seq!['#', 'v', 'e', 'r', 's', 'i', 'o', 'n', ' ']);
        }
        push_chars(&mut header, ver.as_slice());
        push_decimal(&mut header, version as i64);
        header.push('\n');
        let ghost mv = macro_views(macros@);
        let ghost base = header@;
        proof {
            assert(mv.take(0) =~= Seq::<Seq<char>>::empty());
        }
        let mut i: usize = 0;
        while i < macros.len()
            invariant
                mv == macro_views(macros@),
                i <= macros@.len(),
                forall|j: int| 0 <= j < macros@.len() ==> macro_parts(#[trigger] macros@[j]@) is Some,
                header@ == base + macros_text(mv.take(i as int)),
            decreases macros@.len() - i,
        {
            push_macro(&mut header, macros[i]);
            proof {
                assert(mv.take(i + 1).drop_last() =~= mv.take(i as int));
                assert(header@ =~= base + macros_text(mv.take(i + 1)));
            }
            i = i + 1;
        }
        proof {
            assert(mv.take(macros@.len() as int) =~= mv);
        }
        let stages = self.enabled_pipeline_stages;
        let def_vertex = ['_', 'V', 'E', 'R', 'T', 'E', 'X', '_'];
        proof {
            assert(def_vertex@ =~= stage_define(PS_VERTEX));
        }
        let vertex = stage_variant_exec(&header, stages, PS_VERTEX, def_vertex.as_slice(), &self.preprocessed);
        let def_fragment = ['_', 'F', 'R', 'A', 'G', 'M', 'E', 'N', 'T', '_'];
        proof {
            assert(def_fragment@ =~= stage_define(PS_FRAGMENT));
        }
        let fragment = stage_variant_exec(&header, stages, PS_FRAGMENT, def_fragment.as_slice(), &self.preprocessed);
        let def_geometry = ['_', 'G', 'E', 'O', 'M', 'E', 'T', 'R', 'Y', '_'];
        proof {
            assert(def_geometry@ =~= stage_define(PS_GEOMETRY));
        }
        let geometry = stage_variant_exec(&header, stages, PS_GEOMETRY, def_geometry.as_slice(), &self.preprocessed);
        let def_tess_control = ['_', 'T', 'E', 'S', 'S', '_', 'C', 'O', 'N', 'T', 'R', 'O', 'L', '_'];
        proof {
            assert(def_tess_control@ =~= stage_define(PS_TESS_CONTROL));
        }
        let tess_control = stage_variant_exec(&header, stages, PS_TESS_CONTROL, def_tess_control.as_slice(), &self.preprocessed);
        let def_tess_eval = ['_', 'T', 'E', 'S', 'S', '_', 'E', 'V', 'A', 'L', '_'];
        proof {
            assert(def_tess_eval@ =~= stage_define(PS_TESS_EVAL));
        }
        let tess_eval = stage_variant_exec(&header, stages, PS_TESS_EVAL, def_tess_eval.as_slice(), &self.preprocessed);
        let def_compute = ['_', 'C', 'O', 'M', 'P', 'U', 'T', 'E', '_'];
        proof {
            assert(def_compute@ =~= stage_define(PS_COMPUTE));
        }
        let compute = stage_variant_exec(&header, stages, PS_COMPUTE, def_compute.as_slice(), &self.preprocessed);
        (
            stages,
            PreprocessedShaders {
                vertex,
                fragment,
                geometry,
                tess_control,
                tess_eval,
                compute,
                input_layout: self.input_layout,
                primitive_topology: self.primitive_topology,
            },
        )
    }
}

} // verus!
