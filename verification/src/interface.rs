//! Checking host-side interface descriptions against SPIR-V modules: looking
//! up types, names and decorations, the std140-style layout of uniform blocks, and
//! matching uniform constants between host and shaders.
//!
//! Where the shader module is malformed for this purpose (a missing type, a
//! uniform without location, an unsupported type) checking stops: the
//! `*_checked` entry points report it as `None`.

use vstd::prelude::*;
use std::collections::HashMap;
use crate::spirv_parse::Instruction;
use crate::spirv_parse::ITypeVector;
use crate::spirv_parse::IDecorate;
use crate::spirv_parse::IVariable;
use crate::spirv_parse::ParseError;
use crate::spirv_parse::SpirvModule;
use crate::spirv_parse::SpirvOutcome;
use crate::spirv_parse::decodes_to;
use crate::spirv_parse::spirv_words_outcome;
use crate::spirv_parse::parse_spirv_u32s_checked;
use crate::spirv_parse::words_result_matches;
use crate::shader_interface::PrimitiveType;
use crate::shader_interface::TypeDesc;
use crate::shader_interface::UniformConstantDesc;
use crate::shader_interface::ShaderInterfaceDesc;

verus! {

/// The SPIR-V `Location` decoration.
pub const DECORATION_LOCATION: u32 = 30;

/// The SPIR-V `Uniform` storage class.
pub const STORAGE_CLASS_UNIFORM: u32 = 2;

/// The result id of a type-declaring instruction.
pub open spec fn type_result_id(inst: Instruction) -> Option<u32> {
    match inst {
        Instruction::TypeVoid(t) => Some(t.result_id),
        Instruction::TypeBool(t) => Some(t.result_id),
        Instruction::TypeInt(t) => Some(t.result_id),
        Instruction::TypeFloat(t) => Some(t.result_id),
        Instruction::TypeVector(t) => Some(t.result_id),
        Instruction::TypeMatrix(t) => Some(t.result_id),
        Instruction::TypeImage(t) => Some(t.result_id),
        Instruction::TypeSampler(t) => Some(t.result_id),
        Instruction::TypeSampledImage(t) => Some(t.result_id),
        Instruction::TypeArray(t) => Some(t.result_id),
        Instruction::TypeRuntimeArray(t) => Some(t.result_id),
        Instruction::TypeStruct(t) => Some(t.result_id),
        Instruction::TypeOpaque(t) => Some(t.result_id),
        Instruction::TypePointer(t) => Some(t.result_id),
        _ => None,
    }
}

/// The first type instruction of `insts` with result id `id`.
pub open spec fn find_type_spec(insts: Seq<Instruction>, id: u32) -> Option<Instruction>
    decreases insts.len(),
{
    if insts.len() == 0 {
        None
    } else if type_result_id(insts[0]) == Some(id) {
        Some(insts[0])
    } else {
        find_type_spec(insts.drop_first(), id)
    }
}

/// The first decoration `deco` of `id` in `insts`.
pub open spec fn find_decoration_spec(insts: Seq<Instruction>, id: u32, deco: u32) -> Option<
    IDecorate,
>
    decreases insts.len(),
{
    if insts.len() == 0 {
        None
    } else if insts[0] matches Instruction::Decorate(d) && d.target_id == id && d.decoration
        == deco {
        match insts[0] {
            Instruction::Decorate(d) => Some(d),
            _ => None,
        }
    } else {
        find_decoration_spec(insts.drop_first(), id, deco)
    }
}

/// The first name given to `id` in `insts`.
pub open spec fn find_name_spec(insts: Seq<Instruction>, id: u32) -> Option<Seq<char>>
    decreases insts.len(),
{
    if insts.len() == 0 {
        None
    } else if insts[0] matches Instruction::Name(n) && n.target_id == id {
        match insts[0] {
            Instruction::Name(n) => Some(n.name@),
            _ => None,
        }
    } else {
        find_name_spec(insts.drop_first(), id)
    }
}

struct ModuleWrapper(SpirvModule);

impl ModuleWrapper {
    spec fn insts(&self) -> Seq<Instruction> {
        self.0.instructions@
    }

    fn find_decoration(&self, id: u32, deco: u32) -> (r: Option<&IDecorate>)
        ensures
            match r {
                Some(d) => find_decoration_spec(self.insts(), id, deco) == Some(*d),
                None => find_decoration_spec(self.insts(), id, deco) is None,
            },
    {
        let insts = &self.0.instructions;
        let mut i: usize = 0;
        proof {
            assert(self.insts().skip(0) =~= self.insts());
        }
        while i < insts.len()
            invariant
                insts@ == self.insts(),
                i <= insts@.len(),
                find_decoration_spec(self.insts(), id, deco) == find_decoration_spec(
                    insts@.skip(i as int),
                    id,
                    deco,
                ),
            decreases insts@.len() - i,
        {
            proof {
                assert(insts@.skip(i as int).drop_first() =~= insts@.skip(i + 1));
            }
            match &insts[i] {
                Instruction::Decorate(d) => {
                    if d.target_id == id && d.decoration == deco {
                        return Some(d);
                    }
                },
                _ => {},
            }
            i = i + 1;
        }
        None
    }

    fn find_name(&self, id: u32) -> (r: Option<&String>)
        ensures
            match r {
                Some(n) => find_name_spec(self.insts(), id) == Some(n@),
                None => find_name_spec(self.insts(), id) is None,
            },
    {
        let insts = &self.0.instructions;
        let mut i: usize = 0;
        proof {
            assert(self.insts().skip(0) =~= self.insts());
        }
        while i < insts.len()
            invariant
                insts@ == self.insts(),
                i <= insts@.len(),
                find_name_spec(self.insts(), id) == find_name_spec(insts@.skip(i as int), id),
            decreases insts@.len() - i,
        {
            proof {
                assert(insts@.skip(i as int).drop_first() =~= insts@.skip(i + 1));
            }
            match &insts[i] {
                Instruction::Name(n) => {
                    if n.target_id == id {
                        return Some(&n.name);
                    }
                },
                _ => {},
            }
            i = i + 1;
        }
        None
    }

    fn find_type(&self, id: u32) -> (r: Option<&Instruction>)
        ensures
            match r {
                Some(t) => find_type_spec(self.insts(), id) == Some(*t),
                None => find_type_spec(self.insts(), id) is None,
            },
    {
        let insts = &self.0.instructions;
        let mut i: usize = 0;
        proof {
            assert(self.insts().skip(0) =~= self.insts());
        }
        while i < insts.len()
            invariant
                insts@ == self.insts(),
                i <= insts@.len(),
                find_type_spec(self.insts(), id) == find_type_spec(insts@.skip(i as int), id),
            decreases insts@.len() - i,
        {
            proof {
                assert(insts@.skip(i as int).drop_first() =~= insts@.skip(i + 1));
            }
            let inst = &insts[i];
            let rid = match inst {
                Instruction::TypeVoid(t) => Some(t.result_id),
                Instruction::TypeBool(t) => Some(t.result_id),
                Instruction::TypeInt(t) => Some(t.result_id),
                Instruction::TypeFloat(t) => Some(t.result_id),
                Instruction::TypeVector(t) => Some(t.result_id),
                Instruction::TypeMatrix(t) => Some(t.result_id),
                Instruction::TypeImage(t) => Some(t.result_id),
                Instruction::TypeSampler(t) => Some(t.result_id),
                Instruction::TypeSampledImage(t) => Some(t.result_id),
                Instruction::TypeArray(t) => Some(t.result_id),
                Instruction::TypeRuntimeArray(t) => Some(t.result_id),
                Instruction::TypeStruct(t) => Some(t.result_id),
                Instruction::TypeOpaque(t) => Some(t.result_id),
                Instruction::TypePointer(t) => Some(t.result_id),
                _ => None,
            };
            if rid == Some(id) {
                return Some(inst);
            }
            i = i + 1;
        }
        None
    }

    /// The location of `id`: `Some(None)` when it has no location
    /// decoration, `None` when the decoration has no operand.
    fn find_location_decoration(&self, id: u32) -> (r: Option<Option<u32>>)
        ensures
            match find_decoration_spec(self.insts(), id, DECORATION_LOCATION) {
                None => r == Some(None::<u32>),
                Some(d) => if d.params@.len() == 0 {
                    r is None
                } else {
                    r == Some(Some(d.params@[0]))
                },
            },
    {
        match self.find_decoration(id, DECORATION_LOCATION) {
            None => Some(None),
            Some(d) => {
                if d.params.len() == 0 {
                    None
                } else {
                    Some(Some(d.params[0]))
                }
            },
        }
    }
}

// ---------------------------------------------------------------------------
// std140 layout

/// The padding that brings `ptr` up to a multiple of `align`.
pub open spec fn pad_to(ptr: int, align: int) -> int {
    if ptr % align == 0 {
        0
    } else {
        align - ptr % align
    }
}

/// `value` rounded up to a multiple of `multiple` (unchanged for 0).
pub open spec fn round_up_spec(value: int, multiple: int) -> int {
    if multiple == 0 || value % multiple == 0 {
        value
    } else {
        value + multiple - value % multiple
    }
}

/// Alignment and size of a type in std140 layout, or a stop on a type that
/// has no layout here (or whose layout overflows).
pub enum Layout {
    Sized(int, int),
    Stops,
}

/// `Sized(align, size)` when both fit in a `usize`.
pub open spec fn layout_if_fits(align: int, size: int) -> Layout {
    if align <= usize::MAX && size <= usize::MAX {
        Layout::Sized(align, size)
    } else {
        Layout::Stops
    }
}

/// std140 alignment and size of the type `ty`, looking its components up in
/// `insts`, following at most `fuel` nested types: booleans and 32-bit
/// numbers take 4 bytes; a vector of 2, 3 or 4 components of size `n` takes
/// (2n, 2n), (4n, 3n), (4n, 4n); a matrix is an array of its columns with a
/// stride rounded up to the column alignment and an alignment of at least 16.
pub open spec fn align_size(insts: Seq<Instruction>, ty: Instruction, fuel: nat) -> Layout
    decreases fuel,
{
    if fuel == 0 {
        Layout::Stops
    } else {
        match ty {
            Instruction::TypeBool(_) => Layout::Sized(4, 4),
            Instruction::TypeInt(t) => if t.width == 32 {
                Layout::Sized(4, 4)
            } else {
                Layout::Stops
            },
            Instruction::TypeFloat(t) => if t.width == 32 {
                Layout::Sized(4, 4)
            } else {
                Layout::Stops
            },
            Instruction::TypeVector(t) => match find_type_spec(insts, t.component_id) {
                None => Layout::Stops,
                Some(c) => match align_size(insts, c, (fuel - 1) as nat) {
                    Layout::Sized(_, n) => if t.count == 2 {
                        layout_if_fits(2 * n, 2 * n)
                    } else if t.count == 3 {
                        layout_if_fits(4 * n, 3 * n)
                    } else if t.count == 4 {
                        layout_if_fits(4 * n, 4 * n)
                    } else {
                        Layout::Stops
                    },
                    Layout::Stops => Layout::Stops,
                },
            },
            Instruction::TypeMatrix(t) => match find_type_spec(insts, t.column_type_id) {
                None => Layout::Stops,
                Some(c) => match align_size(insts, c, (fuel - 1) as nat) {
                    Layout::Sized(ca, cs) => {
                        let base = if ca <= 16 {
                            16
                        } else {
                            ca
                        };
                        let stride = cs + pad_to(cs, ca);
                        let total = t.column_count * stride;
                        if ca == 0 || stride > usize::MAX || total > usize::MAX || (total % base
                            != 0 && total + base > usize::MAX) {
                            Layout::Stops
                        } else {
                            Layout::Sized(base, round_up_spec(total, base))
                        }
                    },
                    Layout::Stops => Layout::Stops,
                },
            },
            _ => Layout::Stops,
        }
    }
}

/// Places a member of type `ty` after `next` bytes: its offset (`next`
/// aligned) and the offset after it; `None` when the type has no layout or
/// the offsets overflow.
pub open spec fn place_member(insts: Seq<Instruction>, ty: Instruction, next: int) -> Option<
    (int, int),
> {
    match align_size(insts, ty, insts.len()) {
        Layout::Sized(a, s) => {
            let cur = next + pad_to(next, a);
            if a == 0 || cur > usize::MAX || cur + s > usize::MAX {
                None
            } else {
                Some((cur, cur + s))
            }
        },
        Layout::Stops => None,
    }
}

/// A 32-bit scalar (a boolean, or a 32-bit integer or float) is the base
/// machine unit of std140: 4 bytes, aligned to 4.
pub open spec fn is_scalar32(c: Instruction) -> bool {
    ||| c is TypeBool
    ||| (c matches Instruction::TypeInt(x) && x.width == 32)
    ||| (c matches Instruction::TypeFloat(x) && x.width == 32)
}

/// std140 scalars: every 32-bit scalar takes 4 bytes aligned to 4.
pub proof fn lemma_scalar_std140(insts: Seq<Instruction>, c: Instruction, fuel: nat)
    requires
        fuel > 0,
        is_scalar32(c),
    ensures
        align_size(insts, c, fuel) == Layout::Sized(4, 4),
{
}

/// std140 vectors (rules 2 and 3 of the std140 layout): a vector of `count`
/// components that each take `n` bytes takes `count * n` bytes; a vector of
/// two or four components is aligned to its own size (2n, 4n), one of three
/// components to the size of four (4n).
pub proof fn lemma_vector_std140(insts: Seq<Instruction>, t: ITypeVector, c: Instruction, fuel: nat, n: int)
    requires
        fuel > 0,
        find_type_spec(insts, t.component_id) == Some(c),
        align_size(insts, c, (fuel - 1) as nat) matches Layout::Sized(_a, m) && m == n,
        2 <= t.count <= 4,
        4 * n <= usize::MAX,
    ensures
        align_size(insts, Instruction::TypeVector(t), fuel) == Layout::Sized(
            if t.count == 3 {
                4 * n
            } else {
                t.count * n
            },
            t.count * n,
        ),
{
    lemma_align_size_nonneg(insts, c, (fuel - 1) as nat);
}

/// After a 32-bit scalar member at offset 0, a member that is a vector of two
/// 32-bit scalars is placed at offset 8 (its 8-byte alignment) and ends at
/// 16; one of three or four such components at offset 16.
pub proof fn lemma_vector_after_scalar_offset(insts: Seq<Instruction>, t: ITypeVector, c: Instruction)
    requires
        insts.len() >= 2,
        find_type_spec(insts, t.component_id) == Some(c),
        is_scalar32(c),
        2 <= t.count <= 4,
    ensures
        place_member(insts, Instruction::TypeVector(t), 4) == Some(
            if t.count == 2 {
                (8int, 16int)
            } else {
                (16int, 16 + 4 * t.count)
            },
        ),
{
    let fuel = insts.len();
    lemma_scalar_std140(insts, c, (fuel - 1) as nat);
    lemma_vector_std140(insts, t, c, fuel, 4);
    assert(4int % 8 == 4);
    assert(4int % 16 == 4);
}

proof fn lemma_align_size_nonneg(insts: Seq<Instruction>, ty: Instruction, fuel: nat)
    ensures
        align_size(insts, ty, fuel) matches Layout::Sized(a, s) ==> 0 <= a && 0 <= s,
    decreases fuel,
{
    if fuel > 0 {
        match ty {
            Instruction::TypeVector(t) => match find_type_spec(insts, t.component_id) {
                Some(c) => {
                    lemma_align_size_nonneg(insts, c, (fuel - 1) as nat);
                },
                None => {},
            },
            Instruction::TypeMatrix(t) => match find_type_spec(insts, t.column_type_id) {
                Some(c) => {
                    lemma_align_size_nonneg(insts, c, (fuel - 1) as nat);
                    match align_size(insts, c, (fuel - 1) as nat) {
                        Layout::Sized(ca, cs) => {
                            if ca > 0 {
                                let base = if ca <= 16 {
                                    16
                                } else {
                                    ca
                                };
                                let stride = cs + pad_to(cs, ca);
                                assert(0 <= cs % ca < ca) by (nonlinear_arith)
                                    requires
                                        ca > 0,
                                ;
                                let total = t.column_count * stride;
                                assert(total >= 0) by (nonlinear_arith)
                                    requires
                                        stride >= 0,
                                        total == t.column_count * stride,
                                ;
                                assert(0 <= total % base < base) by (nonlinear_arith)
                                    requires
                                        base > 0,
                                ;
                            }
                        },
                        Layout::Stops => {},
                    }
                },
                None => {},
            },
            _ => {},
        }
    }
}

/// A member is placed at the first multiple of its alignment at or after
/// the end of the previous members, and the next member starts right after
/// it.
pub proof fn lemma_member_placement(insts: Seq<Instruction>, ty: Instruction, next: int)
    requires
        0 <= next,
        place_member(insts, ty, next) is Some,
    ensures
        match align_size(insts, ty, insts.len()) {
            Layout::Sized(a, s) => {
                let (cur, after) = place_member(insts, ty, next).unwrap();
                &&& a > 0
                &&& cur % a == 0
                &&& next <= cur < next + a
                &&& after == cur + s
            },
            Layout::Stops => false,
        },
{
    lemma_align_size_nonneg(insts, ty, insts.len());
    match align_size(insts, ty, insts.len()) {
        Layout::Sized(a, s) => {
            let r = next % a;
            assert(0 <= r < a) by (nonlinear_arith)
                requires
                    a > 0,
                    r == next % a,
            ;
            if r == 0 {
                assert(next % a == 0);
            } else {
                assert((next + (a - r)) % a == 0) by (nonlinear_arith)
                    requires
                        a > 0,
                        r == next % a,
                        0 < r < a,
                ;
            }
        },
        Layout::Stops => {},
    }
}

/// The padding that brings `ptr` up to a multiple of `align`.
fn align_offset(ptr: usize, align: usize) -> (r: usize)
    requires
        align > 0,
    ensures
        r == pad_to(ptr as int, align as int),
        r < align,
{
    let offset = ptr % align;
    if offset == 0 {
        0
    } else {
        align - offset
    }
}

/// `value` rounded up to a multiple of `multiple` (unchanged for 0).
fn round_up(value: usize, multiple: usize) -> (r: usize)
    requires
        multiple != 0 && value % multiple != 0 ==> value + multiple <= usize::MAX,
    ensures
        r == round_up_spec(value as int, multiple as int),
{
    if multiple == 0 {
        return value;
    }
    let remainder = value % multiple;
    if remainder == 0 {
        return value;
    }
    value + multiple - remainder
}

/// Assigns std140 offsets to the members of a block, in order.
struct Std140LayoutBuilder {
    next_offset: usize,
}

impl Std140LayoutBuilder {
    fn new() -> (r: Std140LayoutBuilder)
        ensures
            r.next_offset == 0,
    {
        Std140LayoutBuilder { next_offset: 0 }
    }

    fn align(&mut self, a: usize) -> (r: usize)
        requires
            a > 0,
            old(self).next_offset + pad_to(old(self).next_offset as int, a as int) <= usize::MAX,
        ensures
            r == final(self).next_offset,
            final(self).next_offset == old(self).next_offset + pad_to(
                old(self).next_offset as int,
                a as int,
            ),
    {
        self.next_offset = self.next_offset + align_offset(self.next_offset, a);
        self.next_offset
    }

    /// std140 alignment and size of `inst`, following at most `fuel` nested
    /// types; `None` where `align_size` stops.
    fn get_align_and_size(&self, module: &ModuleWrapper, inst: &Instruction, fuel: usize) -> (r:
        Option<(usize, usize)>)
        ensures
            match align_size(module.insts(), *inst, fuel as nat) {
                Layout::Sized(a, s) => r matches Some((x, y)) && x == a && y == s,
                Layout::Stops => r is None,
            },
        decreases fuel,
    {
        if fuel == 0 {
            return None;
        }
        match inst {
            Instruction::TypeBool(_) => Some((4, 4)),
            Instruction::TypeInt(ty) => {
                if ty.width == 32 {
                    Some((4, 4))
                } else {
                    None
                }
            },
            Instruction::TypeFloat(ty) => {
                if ty.width == 32 {
                    Some((4, 4))
                } else {
                    None
                }
            },
            Instruction::TypeVector(ty) => {
                let compty = match module.find_type(ty.component_id) {
                    Some(c) => c,
                    None => {
                        return None;
                    },
                };
                let n = match self.get_align_and_size(module, compty, fuel - 1) {
                    Some((_, n)) => n,
                    None => {
                        return None;
                    },
                };
                if ty.count == 2 {
                    if n > usize::MAX / 2 {
                        proof {
                            assert(2 * n > usize::MAX) by (nonlinear_arith)
                                requires
                                    n > usize::MAX / 2,
                            ;
                        }
                        return None;
                    }
                    Some((2 * n, 2 * n))
                } else if ty.count == 3 {
                    if n > usize::MAX / 4 {
                        proof {
                            assert(4 * n > usize::MAX) by (nonlinear_arith)
                                requires
                                    n > usize::MAX / 4,
                            ;
                        }
                        return None;
                    }
                    Some((4 * n, 3 * n))
                } else if ty.count == 4 {
                    if n > usize::MAX / 4 {
                        proof {
                            assert(4 * n > usize::MAX) by (nonlinear_arith)
                                requires
                                    n > usize::MAX / 4,
                            ;
                        }
                        return None;
                    }
                    Some((4 * n, 4 * n))
                } else {
                    None
                }
            },
            Instruction::TypeMatrix(ty) => {
                let column_ty = match module.find_type(ty.column_type_id) {
                    Some(c) => c,
                    None => {
                        return None;
                    },
                };
                let (col_align, col_size) = match self.get_align_and_size(
                    module,
                    column_ty,
                    fuel - 1,
                ) {
                    Some(p) => p,
                    None => {
                        return None;
                    },
                };
                if col_align == 0 {
                    return None;
                }
                // alignment = column type align rounded up to vec4 align (16 bytes)
                let base_align = if col_align <= 16 {
                    16
                } else {
                    col_align
                };
                let pad = align_offset(col_size, col_align);
                if col_size > usize::MAX - pad {
                    return None;
                }
                let stride = col_size + pad;
                let count = ty.column_count as usize;
                if stride != 0 && count > usize::MAX / stride {
                    proof {
                        assert(count * stride > usize::MAX) by (nonlinear_arith)
                            requires
                                stride != 0,
                                count > usize::MAX / stride,
                        ;
                    }
                    return None;
                }
                proof {
                    assert(count * stride <= usize::MAX) by (nonlinear_arith)
                        requires
                            stride == 0 || count <= usize::MAX / stride,
                    ;
                }
                let total = count * stride;
                if total % base_align != 0 && total > usize::MAX - base_align {
                    return None;
                }
                // total array size = num columns * stride, rounded up to the base alignment
                let array_size = round_up(total, base_align);
                Some((base_align, array_size))
            },
            _ => None,
        }
    }

    /// Places a member of type `ty_inst` after the members so far and returns
    /// its offset; `None` where `place_member` stops.
    fn add_member(&mut self, module: &ModuleWrapper, ty_inst: &Instruction) -> (r: Option<usize>)
        ensures
            match place_member(module.insts(), *ty_inst, old(self).next_offset as int) {
                Some((cur, next)) => r matches Some(c) && c == cur && final(self).next_offset == next,
                None => r is None,
            },
    {
        let (align, size) = match self.get_align_and_size(
            module,
            ty_inst,
            module.0.instructions.len(),
        ) {
            Some(p) => p,
            None => {
                return None;
            },
        };
        if align == 0 {
            return None;
        }
        let pad = align_offset(self.next_offset, align);
        if self.next_offset > usize::MAX - pad {
            return None;
        }
        let current_offset = self.align(align);
        if current_offset > usize::MAX - size {
            return None;
        }
        self.next_offset = self.next_offset + size;
        Some(current_offset)
    }
}

// ---------------------------------------------------------------------------
// Type comparison

#[derive(Copy, Clone, Debug, PartialEq, Eq, Structural)]
pub enum TypeCheckError {
    MemberOffsetMismatch,
    TypeMismatch,
}

/// What comparing a device type with a host type gives: a match, a mismatch,
/// or a stop on a device type that cannot be compared (malformed module).
pub enum CheckOutcome {
    Pass,
    Fail(TypeCheckError),
    Stops,
}

/// The host primitive type that a 32-bit device integer corresponds to.
pub open spec fn int_primitive(signed: bool) -> PrimitiveType {
    if signed {
        PrimitiveType::Int
    } else {
        PrimitiveType::UnsignedInt
    }
}

/// Comparison of the device type `ty` with the host primitive type `p`.
pub open spec fn primitive_outcome(ty: Instruction, p: PrimitiveType) -> CheckOutcome {
    match ty {
        Instruction::TypeFloat(t) => if t.width == 32 && p == PrimitiveType::Float {
            CheckOutcome::Pass
        } else {
            CheckOutcome::Fail(TypeCheckError::TypeMismatch)
        },
        Instruction::TypeInt(t) => if t.width == 32 && p == int_primitive(t.signedness) {
            CheckOutcome::Pass
        } else {
            CheckOutcome::Fail(TypeCheckError::TypeMismatch)
        },
        Instruction::TypeVector(_) => CheckOutcome::Fail(TypeCheckError::TypeMismatch),
        Instruction::TypeMatrix(_) => CheckOutcome::Fail(TypeCheckError::TypeMismatch),
        Instruction::TypeStruct(_) => CheckOutcome::Fail(TypeCheckError::TypeMismatch),
        _ => CheckOutcome::Stops,
    }
}

/// Comparison of the device type `ty` (looking its components up in `insts`)
/// with the host type `host`: 32-bit floats and integers match the host
/// primitive of the same kind and signedness; vectors and matrices match in
/// component type and dimensions; structs match member by member, in type and
/// in std140 offset.
pub open spec fn compare_outcome(insts: Seq<Instruction>, ty: Instruction, host: TypeDesc) -> CheckOutcome
    decreases host, 0int,
{
    match ty {
        Instruction::TypeFloat(_) => match host {
            TypeDesc::Primitive(p) => primitive_outcome(ty, p),
            _ => CheckOutcome::Fail(TypeCheckError::TypeMismatch),
        },
        Instruction::TypeInt(_) => match host {
            TypeDesc::Primitive(p) => primitive_outcome(ty, p),
            _ => CheckOutcome::Fail(TypeCheckError::TypeMismatch),
        },
        Instruction::TypeVector(t) => match host {
            TypeDesc::Vector(hp, hc) => match find_type_spec(insts, t.component_id) {
                None => CheckOutcome::Stops,
                Some(c) => if t.count > 4 {
                    CheckOutcome::Stops
                } else {
                    match primitive_outcome(c, hp) {
                        CheckOutcome::Pass => if t.count != hc as u32 {
                            CheckOutcome::Fail(TypeCheckError::TypeMismatch)
                        } else {
                            CheckOutcome::Pass
                        },
                        o => o,
                    }
                },
            },
            _ => CheckOutcome::Fail(TypeCheckError::TypeMismatch),
        },
        Instruction::TypeMatrix(t) => match host {
            TypeDesc::Matrix(hp, hr, hc) => match find_type_spec(insts, t.column_type_id) {
                None => CheckOutcome::Stops,
                Some(Instruction::TypeVector(cv)) => match find_type_spec(insts, cv.component_id) {
                    None => CheckOutcome::Stops,
                    Some(c) => match primitive_outcome(c, hp) {
                        CheckOutcome::Pass => if cv.count == hr as u32 && t.column_count
                            == hc as u32 {
                            CheckOutcome::Pass
                        } else {
                            CheckOutcome::Fail(TypeCheckError::TypeMismatch)
                        },
                        o => o,
                    },
                },
                Some(_) => CheckOutcome::Stops,
            },
            _ => CheckOutcome::Fail(TypeCheckError::TypeMismatch),
        },
        Instruction::TypeStruct(t) => match host {
            TypeDesc::Struct(ms) => members_outcome(insts, t.member_types@, ms@, 0, 0),
            _ => CheckOutcome::Fail(TypeCheckError::TypeMismatch),
        },
        _ => CheckOutcome::Stops,
    }
}

/// Comparison of the struct members `ids[k..]` (device) with the host members
/// `ms[k..]`, the members before taking `next` bytes of std140 layout. Extra
/// host members are not compared.
pub open spec fn members_outcome(
    insts: Seq<Instruction>,
    ids: Seq<u32>,
    ms: Seq<(usize, TypeDesc)>,
    k: int,
    next: int,
) -> CheckOutcome
    decreases ms, ids.len() - k,
{
    if k < 0 || k >= ids.len() {
        CheckOutcome::Pass
    } else {
        match find_type_spec(insts, ids[k]) {
            None => CheckOutcome::Stops,
            Some(mty) => if k >= ms.len() {
                CheckOutcome::Fail(TypeCheckError::MemberOffsetMismatch)
            } else {
                match compare_outcome(insts, mty, ms[k].1) {
                    CheckOutcome::Pass => match place_member(insts, mty, next) {
                        None => CheckOutcome::Stops,
                        Some((off, next2)) => if off != ms[k].0 {
                            CheckOutcome::Fail(TypeCheckError::MemberOffsetMismatch)
                        } else {
                            members_outcome(insts, ids, ms, k + 1, next2)
                        },
                    },
                    o => o,
                }
            },
        }
    }
}

/// `r` reports the comparison outcome `o`: `None` for a stop.
pub open spec fn check_result_matches(r: Option<Result<(), TypeCheckError>>, o: CheckOutcome) -> bool {
    match o {
        CheckOutcome::Pass => r == Some(Ok::<(), TypeCheckError>(())),
        CheckOutcome::Fail(e) => r == Some(Err::<(), TypeCheckError>(e)),
        CheckOutcome::Stops => r is None,
    }
}

impl ModuleWrapper {
    /// Compares the device type `ty_inst` with the host primitive type `p`.
    fn compare_primitive(&self, ty_inst: &Instruction, p: PrimitiveType) -> (r: Option<
        Result<(), TypeCheckError>,
    >)
        ensures
            check_result_matches(r, primitive_outcome(*ty_inst, p)),
    {
        match ty_inst {
            Instruction::TypeFloat(ty) => {
                if ty.width == 32 && p == PrimitiveType::Float {
                    Some(Ok(()))
                } else {
                    Some(Err(TypeCheckError::TypeMismatch))
                }
            },
            Instruction::TypeInt(ty) => {
                let expected = if ty.signedness {
                    PrimitiveType::Int
                } else {
                    PrimitiveType::UnsignedInt
                };
                if ty.width == 32 && p == expected {
                    Some(Ok(()))
                } else {
                    Some(Err(TypeCheckError::TypeMismatch))
                }
            },
            Instruction::TypeVector(_) => Some(Err(TypeCheckError::TypeMismatch)),
            Instruction::TypeMatrix(_) => Some(Err(TypeCheckError::TypeMismatch)),
            Instruction::TypeStruct(_) => Some(Err(TypeCheckError::TypeMismatch)),
            _ => None,
        }
    }

    /// Check that the type described by the spirv instruction
    /// is layout-compatible with the given host type description
    fn compare_types(&self, ty_inst: &Instruction, host_ty: &TypeDesc) -> (r: Option<
        Result<(), TypeCheckError>,
    >)
        ensures
            check_result_matches(r, compare_outcome(self.insts(), *ty_inst, *host_ty)),
        decreases *host_ty,
    {
        match ty_inst {
            Instruction::TypeFloat(_) | Instruction::TypeInt(_) => match host_ty {
                TypeDesc::Primitive(p) => self.compare_primitive(ty_inst, *p),
                _ => Some(Err(TypeCheckError::TypeMismatch)),
            },
            Instruction::TypeVector(ty) => match host_ty {
                TypeDesc::Vector(host_comp_ty, host_comp_count) => {
                    let comp_ty = match self.find_type(ty.component_id) {
                        Some(c) => c,
                        None => {
                            return None;
                        },
                    };
                    if ty.count > 4 {
                        return None;
                    }
                    match self.compare_primitive(comp_ty, *host_comp_ty) {
                        Some(Ok(())) => {},
                        other => {
                            return other;
                        },
                    }
                    if ty.count != *host_comp_count as u32 {
                        return Some(Err(TypeCheckError::TypeMismatch));
                    }
                    Some(Ok(()))
                },
                _ => Some(Err(TypeCheckError::TypeMismatch)),
            },
            Instruction::TypeMatrix(ty) => match host_ty {
                TypeDesc::Matrix(host_comp_ty, host_row_count, host_col_count) => {
                    let column_ty = match self.find_type(ty.column_type_id) {
                        Some(c) => c,
                        None => {
                            return None;
                        },
                    };
                    match column_ty {
                        Instruction::TypeVector(column_ty) => {
                            let comp_ty = match self.find_type(column_ty.component_id) {
                                Some(c) => c,
                                None => {
                                    return None;
                                },
                            };
                            match self.compare_primitive(comp_ty, *host_comp_ty) {
                                Some(Ok(())) => {},
                                other => {
                                    return other;
                                },
                            }
                            if !(column_ty.count == *host_row_count as u32 && ty.column_count
                                == *host_col_count as u32) {
                                return Some(Err(TypeCheckError::TypeMismatch));
                            }
                            Some(Ok(()))
                        },
                        _ => None,
                    }
                },
                _ => Some(Err(TypeCheckError::TypeMismatch)),
            },
            Instruction::TypeStruct(ty) => match host_ty {
                TypeDesc::Struct(host_members) => {
                    let ghost insts = self.insts();
                    let ghost ids = ty.member_types@;
                    let ghost ms = host_members@;
                    let mut std140_layout = Std140LayoutBuilder::new();
                    let mut k: usize = 0;
                    while k < ty.member_types.len()
                        invariant
                            insts == self.insts(),
                            ids == ty.member_types@,
                            ms == host_members@,
                            *host_ty == TypeDesc::Struct(*host_members),
                            compare_outcome(insts, *ty_inst, *host_ty) == members_outcome(
                                insts,
                                ids,
                                ms,
                                k as int,
                                std140_layout.next_offset as int,
                            ),
                            *ty_inst == Instruction::TypeStruct(*ty),
                            k <= ids.len(),
                        decreases ids.len() - k,
                    {
                        let member_ty = match self.find_type(ty.member_types[k]) {
                            Some(m) => m,
                            None => {
                                return None;
                            },
                        };
                        if k >= host_members.len() {
                            return Some(Err(TypeCheckError::MemberOffsetMismatch));
                        }
                        let host_member = &host_members[k];
                        proof {
                            assert(decreases_to!(*host_ty => host_members@[k as int].1));
                        }
                        match self.compare_types(member_ty, &host_member.1) {
                            Some(Ok(())) => {},
                            other => {
                                return other;
                            },
                        }
                        let member_offset = match std140_layout.add_member(self, member_ty) {
                            Some(o) => o,
                            None => {
                                return None;
                            },
                        };
                        if member_offset != host_member.0 {
                            return Some(Err(TypeCheckError::MemberOffsetMismatch));
                        }
                        k = k + 1;
                    }
                    Some(Ok(()))
                },
                _ => Some(Err(TypeCheckError::TypeMismatch)),
            },
            _ => None,
        }
    }
}

// ---------------------------------------------------------------------------
// Uniform constants

/// What looking for a uniform constant in one module found.
#[derive(Copy, Clone, Debug)]
pub enum VerifyResult {
    NotFound,
    Match { loc: u32, bad_rematch: bool },
    Mismatch { loc: u32, err: TypeCheckError, bad_rematch: bool },
}

/// Why a host interface does not match the shader modules.
#[derive(Copy, Clone, Debug, PartialEq, Eq, Structural)]
pub enum InterfaceError {
    /// A uniform constant's type differs from its shader declaration;
    /// `bad_rematch` when its location had been matched before (possible
    /// linking error).
    Mismatch { loc: u32, err: TypeCheckError, bad_rematch: bool },
    /// No shader module declares the uniform constant.
    BindingNotFound,
}

/// The shader variable `var` with location `loc` is the host uniform `u`:
/// same location when the host gives one, else same name.
pub open spec fn uniform_selected(
    insts: Seq<Instruction>,
    var: IVariable,
    u: UniformConstantDesc,
    loc: u32,
) -> bool {
    match u.index {
        Some(h) => loc == h,
        None => match (find_name_spec(insts, var.result_id), u.name) {
            (Some(sn), Some(hn)) => sn == hn@,
            _ => false,
        },
    }
}

/// What scanning a module for a uniform constant gives: the result and the
/// updated map of matched locations, or a stop on a malformed module.
pub enum UniformScan {
    Done(VerifyResult, Map<u32, bool>),
    Stops,
}

/// Looks for `u` among the uniform-storage variables of `insts` from index
/// `i` on; the first selected variable decides: its type is compared with the
/// host type, and its location recorded in `matched` as matched or not.
pub open spec fn scan_uniform(
    insts: Seq<Instruction>,
    u: UniformConstantDesc,
    matched: Map<u32, bool>,
    i: int,
) -> UniformScan
    decreases insts.len() - i,
{
    if i < 0 || i >= insts.len() {
        UniformScan::Done(VerifyResult::NotFound, matched)
    } else {
        match insts[i] {
            Instruction::Variable(var) => if var.storage_class != STORAGE_CLASS_UNIFORM {
                scan_uniform(insts, u, matched, i + 1)
            } else {
                match find_decoration_spec(insts, var.result_id, DECORATION_LOCATION) {
                    None => UniformScan::Stops,
                    Some(d) => if d.params@.len() == 0 {
                        UniformScan::Stops
                    } else if !uniform_selected(insts, var, u, d.params@[0]) {
                        scan_uniform(insts, u, matched, i + 1)
                    } else {
                        let loc = d.params@[0];
                        let prev = matched.contains_key(loc);
                        match find_type_spec(insts, var.result_type_id) {
                            Some(Instruction::TypePointer(p)) => match find_type_spec(
                                insts,
                                p.type_id,
                            ) {
                                None => UniformScan::Stops,
                                Some(uty) => match compare_outcome(insts, uty, u.ty) {
                                    CheckOutcome::Pass => UniformScan::Done(
                                        VerifyResult::Match { loc, bad_rematch: !prev },
                                        matched.insert(loc, true),
                                    ),
                                    CheckOutcome::Fail(e) => UniformScan::Done(
                                        VerifyResult::Mismatch { loc, err: e, bad_rematch: prev },
                                        matched.insert(loc, false),
                                    ),
                                    CheckOutcome::Stops => UniformScan::Stops,
                                },
                            },
                            _ => UniformScan::Stops,
                        }
                    },
                }
            },
            _ => scan_uniform(insts, u, matched, i + 1),
        }
    }
}

/// Checks `u` against the modules `mods[j..]` in order, stopping at the
/// first module that holds a matching uniform: a mismatch there is the
/// error, a match is success; when no module holds one, the binding is not
/// found. Returns the result (`None` for a stop) and the updated matched
/// locations.
pub open spec fn verify_modules(
    mods: Seq<Seq<Instruction>>,
    u: UniformConstantDesc,
    matched: Map<u32, bool>,
    j: int,
) -> (Option<Result<(), InterfaceError>>, Map<u32, bool>)
    decreases mods.len() - j,
{
    if j < 0 || j >= mods.len() {
        (Some(Err(InterfaceError::BindingNotFound)), matched)
    } else {
        match scan_uniform(mods[j], u, matched, 0) {
            UniformScan::Stops => (None, matched),
            UniformScan::Done(VerifyResult::Mismatch { loc, err, bad_rematch }, m2) => (
                Some(Err(InterfaceError::Mismatch { loc, err, bad_rematch })),
                m2,
            ),
            UniformScan::Done(VerifyResult::Match { .. }, m2) => (Some(Ok(())), m2),
            UniformScan::Done(VerifyResult::NotFound, m2) => verify_modules(mods, u, m2, j + 1),
        }
    }
}

impl ModuleWrapper {
    /// Looks for the uniform `u` in this module (see `scan_uniform`).
    fn verify_uniform(&self, u: &UniformConstantDesc, matched: &mut HashMap<u32, bool>) -> (r:
        Option<VerifyResult>)
        ensures
            match scan_uniform(self.insts(), *u, old(matched)@, 0) {
                UniformScan::Stops => r is None,
                UniformScan::Done(v, m) => r == Some(v) && final(matched)@ == m,
            },
    {
        broadcast use vstd::std_specs::hash::group_hash_axioms;

        let insts = &self.0.instructions;
        let mut i: usize = 0;
        while i < insts.len()
            invariant
                insts@ == self.insts(),
                i <= insts@.len(),
                matched@ == old(matched)@,
                scan_uniform(self.insts(), *u, old(matched)@, 0) == scan_uniform(
                    self.insts(),
                    *u,
                    old(matched)@,
                    i as int,
                ),
            decreases insts@.len() - i,
        {
            if let Instruction::Variable(var) = &insts[i] {
                if var.storage_class == STORAGE_CLASS_UNIFORM {
                    let loc = match self.find_location_decoration(var.result_id) {
                        Some(Some(loc)) => loc,
                        _ => {
                            return None;
                        },
                    };
                    let selected = match u.index {
                        Some(host_loc) => loc == host_loc,
                        None => match (self.find_name(var.result_id), &u.name) {
                            (Some(shader_name), Some(host_name)) => shader_name.eq(host_name),
                            _ => false,
                        },
                    };
                    if selected {
                        let previous_match = matched.contains_key(&loc);
                        let ptr_ty = match self.find_type(var.result_type_id) {
                            Some(Instruction::TypePointer(p)) => p,
                            _ => {
                                return None;
                            },
                        };
                        let uniform_ty_inst = match self.find_type(ptr_ty.type_id) {
                            Some(t) => t,
                            None => {
                                return None;
                            },
                        };
                        match self.compare_types(uniform_ty_inst, &u.ty) {
                            None => {
                                return None;
                            },
                            Some(Err(e)) => {
                                matched.insert(loc, false);
                                return Some(
                                    VerifyResult::Mismatch {
                                        loc,
                                        err: e,
                                        bad_rematch: previous_match,
                                    },
                                );
                            },
                            Some(Ok(())) => {
                                matched.insert(loc, true);
                                return Some(
                                    VerifyResult::Match { loc, bad_rematch: !previous_match },
                                );
                            },
                        }
                    }
                }
            }
            i = i + 1;
        }
        Some(VerifyResult::NotFound)
    }
}

/// The parsed modules of a graphics pipeline.
pub struct SpirvGraphicsPipelineModules {
    vs: ModuleWrapper,
    fs: ModuleWrapper,
    gs: Option<ModuleWrapper>,
    tcs: Option<ModuleWrapper>,
    tes: Option<ModuleWrapper>,
}

spec fn optional_insts(m: Option<ModuleWrapper>) -> Seq<Seq<Instruction>> {
    match m {
        Some(w) => seq![w.insts()],
        None => Seq::empty(),
    }
}

impl SpirvGraphicsPipelineModules {
    /// Instructions of the modules in checking order: vertex, fragment, then
    /// geometry, tessellation control and tessellation evaluation when
    /// present.
    pub closed spec fn module_list(&self) -> Seq<Seq<Instruction>> {
        seq![self.vs.insts(), self.fs.insts()] + optional_insts(self.gs) + optional_insts(
            self.tcs,
        ) + optional_insts(self.tes)
    }

    /// Look for the specified uniform constant in the shader modules
    /// and verify that the types on both sides (shader and host) match.
    /// If the host code specifies a location then the shader and host constants
    /// are matched by location (and the names are ignored), otherwise
    /// they are matched by name.
    ///
    /// This function stops searching as soon as a matching uniform is found in
    /// any shader. It does not detect potential different definitions of the
    /// same variable in different modules, which is a linker error.
    fn verify_named_uniform(
        &self,
        u: &UniformConstantDesc,
        matched_locations: &mut HashMap<u32, bool>,
    ) -> (r: Option<Result<(), InterfaceError>>)
        ensures
            r == verify_modules(self.module_list(), *u, old(matched_locations)@, 0).0,
            r is Some ==> final(matched_locations)@ == verify_modules(
                self.module_list(),
                *u,
                old(matched_locations)@,
                0,
            ).1,
    {
        let mut mods: Vec<&ModuleWrapper> = Vec::new();
        mods.push(&self.vs);
        mods.push(&self.fs);
        if let Some(gs) = &self.gs {
            mods.push(gs);
        }
        if let Some(tcs) = &self.tcs {
            mods.push(tcs);
        }
        if let Some(tes) = &self.tes {
            mods.push(tes);
        }
        let ghost list = self.module_list();
        proof {
            assert(list.len() == mods@.len());
            assert forall|j: int| 0 <= j < list.len() implies list[j] == (
            #[trigger] mods@[j]).insts() by {}
        }
        let mut j: usize = 0;
        while j < mods.len()
            invariant
                list == self.module_list(),
                list.len() == mods@.len(),
                forall|t: int| 0 <= t < list.len() ==> list[t] == (#[trigger] mods@[t]).insts(),
                j <= mods@.len(),
                verify_modules(list, *u, old(matched_locations)@, 0) == verify_modules(
                    list,
                    *u,
                    matched_locations@,
                    j as int,
                ),
            decreases mods@.len() - j,
        {
            let module = mods[j];
            match module.verify_uniform(u, matched_locations) {
                None => {
                    return None;
                },
                Some(VerifyResult::Mismatch { loc, err, bad_rematch }) => {
                    return Some(Err(InterfaceError::Mismatch { loc, err, bad_rematch }));
                },
                Some(VerifyResult::Match { .. }) => {
                    return Some(Ok(()));
                },
                Some(VerifyResult::NotFound) => {},
            }
            j = j + 1;
        }
        // should only be a warning, though
        Some(Err(InterfaceError::BindingNotFound))
    }
}

/// `insts` are the instructions that the module `words` decodes to.
pub open spec fn decodes_module(words: Seq<u32>, insts: Seq<Instruction>) -> bool {
    match spirv_words_outcome(words) {
        SpirvOutcome::Parsed(spans) => insts.len() == spans.len() && forall|k: int|
            0 <= k < spans.len() ==> decodes_to(spans[k].0, spans[k].1, #[trigger] insts[k]),
        _ => false,
    }
}

/// The bytecodes of a pipeline in checking order.
pub open spec fn bytecode_list(
    vs: Seq<u32>,
    fs: Seq<u32>,
    gs: Option<Seq<u32>>,
    tcs: Option<Seq<u32>>,
    tes: Option<Seq<u32>>,
) -> Seq<Seq<u32>> {
    seq![vs, fs] + (match gs {
        Some(w) => seq![w],
        None => Seq::empty(),
    }) + (match tcs {
        Some(w) => seq![w],
        None => Seq::empty(),
    }) + (match tes {
        Some(w) => seq![w],
        None => Seq::empty(),
    })
}

/// Every bytecode parses to a module.
pub open spec fn all_parse(bcs: Seq<Seq<u32>>) -> bool {
    forall|j: int| 0 <= j < bcs.len() ==> #[trigger] spirv_words_outcome(bcs[j]) is Parsed
}

/// `mods` are the instructions of the modules `bcs`.
pub open spec fn modules_decode(bcs: Seq<Seq<u32>>, mods: Seq<Seq<Instruction>>) -> bool {
    mods.len() == bcs.len() && forall|j: int|
        0 <= j < bcs.len() ==> decodes_module(bcs[j], #[trigger] mods[j])
}

/// Checks the uniform constants `us[i..]` in order against the modules; the
/// first failure (or stop) decides.
pub open spec fn check_uniforms(
    mods: Seq<Seq<Instruction>>,
    us: Seq<UniformConstantDesc>,
    matched: Map<u32, bool>,
    i: int,
) -> Option<Result<(), InterfaceError>>
    decreases us.len() - i,
{
    if i < 0 || i >= us.len() {
        Some(Ok(()))
    } else {
        let (res, m2) = verify_modules(mods, us[i], matched, 0);
        match res {
            Some(Ok(())) => check_uniforms(mods, us, m2, i + 1),
            _ => res,
        }
    }
}

fn parse_module(bytecode: &[u32]) -> (r: Option<ModuleWrapper>)
    ensures
        match r {
            Some(m) => decodes_module(bytecode@, m.insts()),
            None => !(spirv_words_outcome(bytecode@) is Parsed),
        },
{
    match parse_spirv_u32s_checked(bytecode) {
        Some(Ok(m)) => Some(ModuleWrapper(m)),
        _ => None,
    }
}

fn parse_optional_module(bytecode: Option<&[u32]>) -> (r: Option<Option<ModuleWrapper>>)
    ensures
        match bytecode {
            None => r == Some(None::<ModuleWrapper>),
            Some(b) => match r {
                Some(Some(m)) => decodes_module(b@, m.insts()),
                Some(None) => false,
                None => !(spirv_words_outcome(b@) is Parsed),
            },
        },
{
    match bytecode {
        None => Some(None),
        Some(b) => match parse_module(b) {
            Some(m) => Some(Some(m)),
            None => None,
        },
    }
}

/// The view of an optional bytecode.
pub open spec fn optional_words(b: Option<&[u32]>) -> Option<Seq<u32>> {
    match b {
        Some(w) => Some(w@),
        None => None,
    }
}

/// Parses the modules of a pipeline and checks every uniform constant of
/// `interface` against them (see `verify_named_uniform`); `None` where a
/// module does not parse or cannot be checked.
///
/// Only the uniform constants are checked; uniform buffers, vertex buffers,
/// render targets and textures are not.
pub fn verify_spirv_interface_checked(
    interface: &ShaderInterfaceDesc,
    vert_bytecode: &[u32],
    frag_bytecode: &[u32],
    geom_bytecode: Option<&[u32]>,
    tess_control_bytecode: Option<&[u32]>,
    tess_eval_bytecode: Option<&[u32]>,
) -> (r: Option<Result<(), InterfaceError>>)
    ensures
        ({
            let bcs = bytecode_list(
                vert_bytecode@,
                frag_bytecode@,
                optional_words(geom_bytecode),
                optional_words(tess_control_bytecode),
                optional_words(tess_eval_bytecode),
            );
            &&& !all_parse(bcs) ==> r is None
            &&& all_parse(bcs) ==> exists|mods: Seq<Seq<Instruction>>|
                #[trigger] modules_decode(bcs, mods) && r == check_uniforms(
                    mods,
                    interface.uniform_constants@,
                    Map::empty(),
                    0,
                )
        }),
{
    let ghost bcs = bytecode_list(
        vert_bytecode@,
        frag_bytecode@,
        optional_words(geom_bytecode),
        optional_words(tess_control_bytecode),
        optional_words(tess_eval_bytecode),
    );
    let vs = parse_module(vert_bytecode);
    let fs = parse_module(frag_bytecode);
    let gs = parse_optional_module(geom_bytecode);
    let tcs = parse_optional_module(tess_control_bytecode);
    let tes = parse_optional_module(tess_eval_bytecode);
    let (vs, fs, gs, tcs, tes) = match (vs, fs, gs, tcs, tes) {
        (Some(vs), Some(fs), Some(gs), Some(tcs), Some(tes)) => (vs, fs, gs, tcs, tes),
        _ => {
            proof {
                assert(!all_parse(bcs)) by {
                    if all_parse(bcs) {
                        assert(spirv_words_outcome(bcs[0]) is Parsed);
                        assert(spirv_words_outcome(bcs[1]) is Parsed);
                        if geom_bytecode is Some {
                            assert(spirv_words_outcome(bcs[2]) is Parsed);
                        }
                        if tess_control_bytecode is Some {
                            let t = if geom_bytecode is Some { 3int } else { 2int };
                            assert(spirv_words_outcome(bcs[t]) is Parsed);
                        }
                        if tess_eval_bytecode is Some {
                            let t = 2 + (if geom_bytecode is Some { 1int } else { 0int }) + (
                            if tess_control_bytecode is Some { 1int } else { 0int });
                            assert(spirv_words_outcome(bcs[t]) is Parsed);
                        }
                    }
                }
            }
            return None;
        },
    };
    let modules = SpirvGraphicsPipelineModules { vs, fs, gs, tcs, tes };
    let ghost mods = modules.module_list();
    proof {
        assert(modules_decode(bcs, mods));
        assert forall|j: int| 0 <= j < bcs.len() implies #[trigger] spirv_words_outcome(
            bcs[j],
        ) is Parsed by {
            assert(decodes_module(bcs[j], mods[j]));
        }
    }
    let us = interface.get_uniform_constants();
    let mut matched_locations: HashMap<u32, bool> = HashMap::new();
    let mut i: usize = 0;
    while i < us.len()
        invariant
            us@ == interface.uniform_constants@,
            mods == modules.module_list(),
            bcs == bytecode_list(
                vert_bytecode@,
                frag_bytecode@,
                optional_words(geom_bytecode),
                optional_words(tess_control_bytecode),
                optional_words(tess_eval_bytecode),
            ),
            all_parse(bcs),
            modules_decode(bcs, mods),
            i <= us@.len(),
            check_uniforms(mods, us@, Map::empty(), 0) == check_uniforms(
                mods,
                us@,
                matched_locations@,
                i as int,
            ),
        decreases us@.len() - i,
    {
        match modules.verify_named_uniform(&us[i], &mut matched_locations) {
            Some(Ok(())) => {},
            other => {
                return other;
            },
        }
        i = i + 1;
    }
    Some(Ok(()))
}

/// Parses the modules of a pipeline and checks every uniform constant of
/// `interface` against them: the first uniform that is not found, or whose
/// type does not match, is the error. The modules must parse and be
/// checkable. As with `verify_spirv_interface_checked`, only the uniform
/// constants are checked; uniform buffers, vertex buffers, render targets
/// and textures are not.
pub fn verify_spirv_interface(
    interface: &ShaderInterfaceDesc,
    vert_bytecode: &[u32],
    frag_bytecode: &[u32],
    geom_bytecode: Option<&[u32]>,
    tess_control_bytecode: Option<&[u32]>,
    tess_eval_bytecode: Option<&[u32]>,
) -> (r: Result<(), InterfaceError>)
    requires
        ({
            let bcs = bytecode_list(
                vert_bytecode@,
                frag_bytecode@,
                optional_words(geom_bytecode),
                optional_words(tess_control_bytecode),
                optional_words(tess_eval_bytecode),
            );
            &&& all_parse(bcs)
            &&& forall|mods: Seq<Seq<Instruction>>|
                #[trigger] modules_decode(bcs, mods) ==> check_uniforms(
                    mods,
                    interface.uniform_constants@,
                    Map::empty(),
                    0,
                ) is Some
        }),
    ensures
        exists|mods: Seq<Seq<Instruction>>|
            #[trigger] modules_decode(
                bytecode_list(
                    vert_bytecode@,
                    frag_bytecode@,
                    optional_words(geom_bytecode),
                    optional_words(tess_control_bytecode),
                    optional_words(tess_eval_bytecode),
                ),
                mods,
            ) && Some(r) == check_uniforms(mods, interface.uniform_constants@, Map::empty(), 0),
{
    match verify_spirv_interface_checked(
        interface,
        vert_bytecode,
        frag_bytecode,
        geom_bytecode,
        tess_control_bytecode,
        tess_eval_bytecode,
    ) {
        Some(r) => r,
        None => {
            proof {
                assert(false);
            }
            Err(InterfaceError::BindingNotFound)
        },
    }
}

} // verus!
