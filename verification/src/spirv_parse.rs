//! A SPIR-V module reader: the header, then the instruction stream, decoding
//! the instructions that interface checking needs and keeping the others as
//! raw words.
//!
//! Malformed input (an instruction of zero words, too few operands for its
//! opcode, an unterminated or non-UTF-8 string, an image operand out of range,
//! a byte stream whose length is not a multiple of four) is not a `ParseError`:
//! the `*_checked` functions report it as `None`, and the other entry points
//! require input that is not malformed.

use vstd::prelude::*;
use vstd::slice::slice_subrange;
use vstd::slice::slice_to_vec;
use vstd::utf8::valid_utf8;
use vstd::utf8::decode_utf8;
use crate::spirv_enums::is_addressing_model;
use crate::spirv_enums::is_memory_model;
use crate::spirv_enums::is_execution_model;
use crate::spirv_enums::is_execution_mode;
use crate::spirv_enums::is_capability;
use crate::spirv_enums::is_dim;
use crate::spirv_enums::is_image_format;
use crate::spirv_enums::is_access_qualifier;
use crate::spirv_enums::is_storage_class;
use crate::spirv_enums::is_decoration;
use crate::spirv_enums::addressing_model_from_u32;
use crate::spirv_enums::memory_model_from_u32;
use crate::spirv_enums::execution_model_from_u32;
use crate::spirv_enums::execution_mode_from_u32;
use crate::spirv_enums::capability_from_u32;
use crate::spirv_enums::dim_from_u32;
use crate::spirv_enums::image_format_from_u32;
use crate::spirv_enums::access_qualifier_from_u32;
use crate::spirv_enums::storage_class_from_u32;
use crate::spirv_enums::decoration_from_u32;

verus! {

/// Error that can happen when parsing.
#[derive(Debug, Clone)]
pub enum ParseError {
    MissingHeader,
    WrongHeader,
    IncompleteInstruction,
    UnknownConstant(&'static str, u32),
}

/// A parsed module: the SPIR-V version (major, minor), the id bound and the
/// instructions in order.
#[derive(Debug)]
pub struct SpirvModule {
    pub version: (u8, u8),
    pub bound: u32,
    pub instructions: Vec<Instruction>,
}

/// An instruction kept as its opcode and operand words.
#[derive(Debug, Clone)]
pub struct IUnknownInst(pub u16, pub Vec<u32>);

#[derive(Debug, Clone)]
pub struct IName {
    pub target_id: u32,
    pub name: String,
}

#[derive(Debug, Clone)]
pub struct IMemberName {
    pub target_id: u32,
    pub member: u32,
    pub name: String,
}

#[derive(Debug, Clone)]
pub struct IExtInstImport {
    pub result_id: u32,
    pub name: String,
}

/// Addressing model and memory model numbers.
#[derive(Debug, Clone)]
pub struct IMemoryModel(pub u32, pub u32);

#[derive(Debug, Clone)]
pub struct IEntryPoint {
    /// Execution model number.
    pub execution: u32,
    pub id: u32,
    pub name: String,
    pub interface: Vec<u32>,
}

#[derive(Debug, Clone)]
pub struct IExecutionMode {
    pub target_id: u32,
    /// Execution mode number.
    pub mode: u32,
    pub optional_literals: Vec<u32>,
}

/// Capability number.
#[derive(Debug, Clone)]
pub struct ICapability(pub u32);

#[derive(Debug, Clone)]
pub struct ITypeVoid {
    pub result_id: u32,
}

#[derive(Debug, Clone)]
pub struct ITypeBool {
    pub result_id: u32,
}

#[derive(Debug, Clone)]
pub struct ITypeInt {
    pub result_id: u32,
    pub width: u32,
    pub signedness: bool,
}

#[derive(Debug, Clone)]
pub struct ITypeFloat {
    pub result_id: u32,
    pub width: u32,
}

#[derive(Debug, Clone)]
pub struct ITypeVector {
    pub result_id: u32,
    pub component_id: u32,
    pub count: u32,
}

#[derive(Debug, Clone)]
pub struct ITypeMatrix {
    pub result_id: u32,
    pub column_type_id: u32,
    pub column_count: u32,
}

#[derive(Debug, Clone)]
pub struct ITypeImage {
    pub result_id: u32,
    pub sampled_type_id: u32,
    /// Dimensionality number.
    pub dim: u32,
    pub depth: Option<bool>,
    pub arrayed: bool,
    pub ms: bool,
    pub sampled: Option<bool>,
    /// Image format number.
    pub format: u32,
    /// Access qualifier number.
    pub access: Option<u32>,
}

#[derive(Debug, Clone)]
pub struct ITypeSampler {
    pub result_id: u32,
}

#[derive(Debug, Clone)]
pub struct ITypeSampledImage {
    pub result_id: u32,
    pub image_type_id: u32,
}

#[derive(Debug, Clone)]
pub struct ITypeArray {
    pub result_id: u32,
    pub type_id: u32,
    pub length_id: u32,
}

#[derive(Debug, Clone)]
pub struct ITypeRuntimeArray {
    pub result_id: u32,
    pub type_id: u32,
}

#[derive(Debug, Clone)]
pub struct ITypeStruct {
    pub result_id: u32,
    pub member_types: Vec<u32>,
}

#[derive(Debug, Clone)]
pub struct ITypeOpaque {
    pub result_id: u32,
    pub name: String,
}

#[derive(Debug, Clone)]
pub struct ITypePointer {
    pub result_id: u32,
    /// Storage class number.
    pub storage_class: u32,
    pub type_id: u32,
}

#[derive(Debug, Clone)]
pub struct IConstant {
    pub result_type_id: u32,
    pub result_id: u32,
    pub data: Vec<u32>,
}

#[derive(Debug, Clone)]
pub struct IVariable {
    pub result_type_id: u32,
    pub result_id: u32,
    /// Storage class number.
    pub storage_class: u32,
    pub initializer: Option<u32>,
}

#[derive(Debug, Clone)]
pub struct IDecorate {
    pub target_id: u32,
    /// Decoration number.
    pub decoration: u32,
    pub params: Vec<u32>,
}

#[derive(Debug, Clone)]
pub struct IMemberDecorate {
    pub target_id: u32,
    pub member: u32,
    /// Decoration number.
    pub decoration: u32,
    pub params: Vec<u32>,
}

#[derive(Debug, Clone)]
pub struct ILabel {
    pub result_id: u32,
}

#[derive(Debug, Clone)]
pub struct IBranch {
    pub result_id: u32,
}

#[derive(Debug, Clone)]
pub enum Instruction {
    Unknown(IUnknownInst),
    Nop,
    Name(IName),
    MemberName(IMemberName),
    ExtInstImport(IExtInstImport),
    MemoryModel(IMemoryModel),
    EntryPoint(IEntryPoint),
    ExecutionMode(IExecutionMode),
    Capability(ICapability),
    TypeVoid(ITypeVoid),
    TypeBool(ITypeBool),
    TypeInt(ITypeInt),
    TypeFloat(ITypeFloat),
    TypeVector(ITypeVector),
    TypeMatrix(ITypeMatrix),
    TypeImage(ITypeImage),
    TypeSampler(ITypeSampler),
    TypeSampledImage(ITypeSampledImage),
    TypeArray(ITypeArray),
    TypeRuntimeArray(ITypeRuntimeArray),
    TypeStruct(ITypeStruct),
    TypeOpaque(ITypeOpaque),
    TypePointer(ITypePointer),
    Constant(IConstant),
    FunctionEnd,
    Variable(IVariable),
    Decorate(IDecorate),
    MemberDecorate(IMemberDecorate),
    Label(ILabel),
    Branch(IBranch),
    Kill,
    Return,
}

// ---------------------------------------------------------------------------
// String operands

/// Byte `i` of the little-endian byte stream of `words`.
pub open spec fn word_byte(words: Seq<u32>, i: int) -> u8 {
    ((words[i / 4] >> ((8 * (i % 4)) as u32)) & 0xff) as u8
}

/// Index of the first zero byte at or after `from`; the byte count when there
/// is none.
pub open spec fn nul_index(words: Seq<u32>, from: int) -> int
    decreases 4 * words.len() - from,
{
    if from < 0 || from >= 4 * words.len() {
        (4 * words.len()) as int
    } else if word_byte(words, from) == 0 {
        from
    } else {
        nul_index(words, from + 1)
    }
}

/// The bytes of the string operand at the start of `words`, up to its zero
/// terminator.
pub open spec fn string_bytes(words: Seq<u32>) -> Seq<u8> {
    Seq::new(nul_index(words, 0) as nat, |j: int| word_byte(words, j))
}

/// The number of words that the string operand takes, terminator included.
pub open spec fn string_word_count(words: Seq<u32>) -> int {
    1 + nul_index(words, 0) / 4
}

/// The string operand ends within `words` and is UTF-8.
pub open spec fn string_well_formed(words: Seq<u32>) -> bool {
    nul_index(words, 0) < 4 * words.len() && valid_utf8(string_bytes(words))
}

/// The characters of the string operand.
pub open spec fn string_chars(words: Seq<u32>) -> Seq<char> {
    decode_utf8(string_bytes(words))
}

proof fn lemma_nul_index_skip(words: Seq<u32>, from: int, to: int)
    requires
        0 <= from <= to <= 4 * words.len(),
        forall|j: int| from <= j < to ==> word_byte(words, j) != 0,
    ensures
        nul_index(words, from) == nul_index(words, to),
    decreases to - from,
{
    if from < to {
        lemma_nul_index_skip(words, from + 1, to);
    }
}

proof fn lemma_nul_index_bounds(words: Seq<u32>, from: int)
    requires
        0 <= from <= 4 * words.len(),
    ensures
        from <= nul_index(words, from) <= 4 * words.len(),
        nul_index(words, from) < 4 * words.len() ==> word_byte(words, nul_index(words, from))
            == 0,
        forall|j: int| from <= j < nul_index(words, from) ==> word_byte(words, j) != 0,
    decreases 4 * words.len() - from,
{
    if from < 4 * words.len() && word_byte(words, from) != 0 {
        lemma_nul_index_bounds(words, from + 1);
    }
}

/// `String::from_utf8`: the string that the bytes encode, or `None` when they
/// are not UTF-8.
#[verifier::external_body]
fn utf8_to_string(bytes: Vec<u8>) -> (r: Option<String>)
    ensures
        r is Some <==> valid_utf8(bytes@),
        r matches Some(s) ==> s@ == decode_utf8(bytes@),
{
    match String::from_utf8(bytes) {
        Ok(s) => Some(s),
        Err(_) => None,
    }
}

/// Reads the string operand at the start of `data`: the string and the number
/// of words it takes, or `None` when it is unterminated or not UTF-8.
fn parse_string(data: &[u32]) -> (r: Option<(String, usize)>)
    ensures
        r is Some <==> string_well_formed(data@),
        r matches Some((s, n)) ==> s@ == string_chars(data@) && n == string_word_count(data@)
            && n <= data@.len(),
{
    let mut bytes: Vec<u8> = Vec::new();
    let mut k: usize = 0;
    let mut found = false;
    while k < data.len() && !found
        invariant
            k <= data@.len(),
            !found ==> bytes@.len() == 4 * k,
            found ==> bytes@.len() == nul_index(data@, 0) && nul_index(data@, 0) < 4
                * data@.len(),
            forall|j: int| 0 <= j < bytes@.len() ==> bytes@[j] == word_byte(data@, j),
            forall|j: int| 0 <= j < bytes@.len() ==> word_byte(data@, j) != 0,
        decreases data@.len() - k, (if found { 0int } else { 1int }),
    {
        let w = data[k];
        let mut j: u32 = 0;
        while j < 4 && !found
            invariant
                k < data@.len(),
                w == data@[k as int],
                j <= 4,
                !found ==> bytes@.len() == 4 * k + j,
                found ==> bytes@.len() == nul_index(data@, 0) && nul_index(data@, 0) < 4
                    * data@.len(),
                forall|t: int| 0 <= t < bytes@.len() ==> bytes@[t] == word_byte(data@, t),
                forall|t: int| 0 <= t < bytes@.len() ==> word_byte(data@, t) != 0,
            decreases 4 - j, (if found { 0int } else { 1int }),
        {
            let b = ((w >> (8 * j)) & 0xff) as u8;
            let ghost i: int = 4 * k + j;
            proof {
                assert(i / 4 == k as int && i % 4 == j as int) by (nonlinear_arith)
                    requires
                        i == 4 * k + j,
                        0 <= j < 4,
                ;
                assert(b == word_byte(data@, i));
            }
            if b == 0 {
                proof {
                    lemma_nul_index_skip(data@, 0, i);
                    assert(nul_index(data@, i) == i);
                }
                found = true;
            } else {
                bytes.push(b);
                j = j + 1;
            }
        }
        if !found {
            k = k + 1;
        }
    }
    if !found {
        proof {
            lemma_nul_index_skip(data@, 0, (4 * data@.len()) as int);
        }
        return None;
    }
    proof {
        assert(bytes@ =~= string_bytes(data@));
    }
    let n = 1 + bytes.len() / 4;
    match utf8_to_string(bytes) {
        Some(s) => Some((s, n)),
        None => None,
    }
}

// ---------------------------------------------------------------------------
// Instructions

/// What decoding one instruction gives: a decoded instruction, a parse error,
/// or malformed input.
pub enum Decoded {
    Valid,
    Error(ParseError),
    Malformed,
}

/// The error for an operand that names no variant of its enumeration.
pub open spec fn unknown_constant(v: u32) -> Decoded {
    Decoded::Error(ParseError::UnknownConstant("unknown", v))
}

/// The outcome of decoding opcode `opcode` with operands `ops`: operands are
/// read in order, and the first one missing (malformed), naming no variant
/// (an error), or out of range (malformed) decides.
pub open spec fn decode_outcome(opcode: u16, ops: Seq<u32>) -> Decoded {
    let n = ops.len();
    if opcode == 5 || opcode == 11 || opcode == 31 {
        if n < 1 || !string_well_formed(ops.skip(1)) {
            Decoded::Malformed
        } else {
            Decoded::Valid
        }
    } else if opcode == 6 {
        if n < 2 || !string_well_formed(ops.skip(2)) {
            Decoded::Malformed
        } else {
            Decoded::Valid
        }
    } else if opcode == 14 {
        if n < 1 {
            Decoded::Malformed
        } else if !is_addressing_model(ops[0]) {
            unknown_constant(ops[0])
        } else if n < 2 {
            Decoded::Malformed
        } else if !is_memory_model(ops[1]) {
            unknown_constant(ops[1])
        } else {
            Decoded::Valid
        }
    } else if opcode == 15 {
        if n < 2 || !string_well_formed(ops.skip(2)) {
            Decoded::Malformed
        } else if !is_execution_model(ops[0]) {
            unknown_constant(ops[0])
        } else {
            Decoded::Valid
        }
    } else if opcode == 16 {
        if n < 2 {
            Decoded::Malformed
        } else if !is_execution_mode(ops[1]) {
            unknown_constant(ops[1])
        } else {
            Decoded::Valid
        }
    } else if opcode == 17 {
        if n < 1 {
            Decoded::Malformed
        } else if !is_capability(ops[0]) {
            unknown_constant(ops[0])
        } else {
            Decoded::Valid
        }
    } else if opcode == 19 || opcode == 20 || opcode == 26 || opcode == 30 || opcode == 248
        || opcode == 249 {
        if n < 1 {
            Decoded::Malformed
        } else {
            Decoded::Valid
        }
    } else if opcode == 22 || opcode == 27 || opcode == 29 || opcode == 43 {
        if n < 2 {
            Decoded::Malformed
        } else {
            Decoded::Valid
        }
    } else if opcode == 21 || opcode == 23 || opcode == 24 || opcode == 28 {
        if n < 3 {
            Decoded::Malformed
        } else {
            Decoded::Valid
        }
    } else if opcode == 25 {
        if n < 3 {
            Decoded::Malformed
        } else if !is_dim(ops[2]) {
            unknown_constant(ops[2])
        } else if n < 4 || ops[3] > 2 || n < 7 || ops[6] > 2 || n < 8 {
            Decoded::Malformed
        } else if !is_image_format(ops[7]) {
            unknown_constant(ops[7])
        } else if n >= 9 && !is_access_qualifier(ops[8]) {
            unknown_constant(ops[8])
        } else {
            Decoded::Valid
        }
    } else if opcode == 32 {
        if n < 2 {
            Decoded::Malformed
        } else if !is_storage_class(ops[1]) {
            unknown_constant(ops[1])
        } else if n < 3 {
            Decoded::Malformed
        } else {
            Decoded::Valid
        }
    } else if opcode == 59 {
        if n < 3 {
            Decoded::Malformed
        } else if !is_storage_class(ops[2]) {
            unknown_constant(ops[2])
        } else {
            Decoded::Valid
        }
    } else if opcode == 71 {
        if n < 2 {
            Decoded::Malformed
        } else if !is_decoration(ops[1]) {
            unknown_constant(ops[1])
        } else {
            Decoded::Valid
        }
    } else if opcode == 72 {
        if n < 3 {
            Decoded::Malformed
        } else if !is_decoration(ops[2]) {
            unknown_constant(ops[2])
        } else {
            Decoded::Valid
        }
    } else {
        Decoded::Valid
    }
}

/// The image depth operand: 0 not a depth image, 1 a depth image, 2 unknown.
pub open spec fn image_depth(v: u32) -> Option<bool> {
    if v == 0 {
        Some(false)
    } else if v == 1 {
        Some(true)
    } else {
        None
    }
}

/// The image sampled operand: 0 unknown, 1 used with a sampler, 2 not.
pub open spec fn image_sampled(v: u32) -> Option<bool> {
    if v == 0 {
        None
    } else if v == 1 {
        Some(true)
    } else {
        Some(false)
    }
}

/// `inst` is the instruction that opcode `opcode` with operands `ops` decodes
/// to (for operands whose decoding is `Valid`).
pub open spec fn decodes_to(opcode: u16, ops: Seq<u32>, inst: Instruction) -> bool {
    let n = ops.len();
    if opcode == 0 {
        inst is Nop
    } else if opcode == 5 {
        inst matches Instruction::Name(x) && x.target_id == ops[0] && x.name@ == string_chars(
            ops.skip(1),
        )
    } else if opcode == 6 {
        inst matches Instruction::MemberName(x) && x.target_id == ops[0] && x.member == ops[1]
            && x.name@ == string_chars(ops.skip(2))
    } else if opcode == 11 {
        inst matches Instruction::ExtInstImport(x) && x.result_id == ops[0] && x.name@
            == string_chars(ops.skip(1))
    } else if opcode == 14 {
        inst matches Instruction::MemoryModel(x) && x.0 == ops[0] && x.1 == ops[1]
    } else if opcode == 15 {
        inst matches Instruction::EntryPoint(x) && x.execution == ops[0] && x.id == ops[1]
            && x.name@ == string_chars(ops.skip(2)) && x.interface@ == ops.skip(2).skip(
            string_word_count(ops.skip(2)),
        )
    } else if opcode == 16 {
        inst matches Instruction::ExecutionMode(x) && x.target_id == ops[0] && x.mode == ops[1]
            && x.optional_literals@ == ops.skip(2)
    } else if opcode == 17 {
        inst matches Instruction::Capability(x) && x.0 == ops[0]
    } else if opcode == 19 {
        inst matches Instruction::TypeVoid(x) && x.result_id == ops[0]
    } else if opcode == 20 {
        inst matches Instruction::TypeBool(x) && x.result_id == ops[0]
    } else if opcode == 21 {
        inst matches Instruction::TypeInt(x) && x.result_id == ops[0] && x.width == ops[1]
            && x.signedness == (ops[2] != 0)
    } else if opcode == 22 {
        inst matches Instruction::TypeFloat(x) && x.result_id == ops[0] && x.width == ops[1]
    } else if opcode == 23 {
        inst matches Instruction::TypeVector(x) && x.result_id == ops[0] && x.component_id
            == ops[1] && x.count == ops[2]
    } else if opcode == 24 {
        inst matches Instruction::TypeMatrix(x) && x.result_id == ops[0] && x.column_type_id
            == ops[1] && x.column_count == ops[2]
    } else if opcode == 25 {
        inst matches Instruction::TypeImage(x) && x.result_id == ops[0] && x.sampled_type_id
            == ops[1] && x.dim == ops[2] && x.depth == image_depth(ops[3]) && x.arrayed == (ops[4]
            != 0) && x.ms == (ops[5] != 0) && x.sampled == image_sampled(ops[6]) && x.format
            == ops[7] && x.access == (if n >= 9 {
            Some(ops[8])
        } else {
            None
        })
    } else if opcode == 26 {
        inst matches Instruction::TypeSampler(x) && x.result_id == ops[0]
    } else if opcode == 27 {
        inst matches Instruction::TypeSampledImage(x) && x.result_id == ops[0]
            && x.image_type_id == ops[1]
    } else if opcode == 28 {
        inst matches Instruction::TypeArray(x) && x.result_id == ops[0] && x.type_id == ops[1]
            && x.length_id == ops[2]
    } else if opcode == 29 {
        inst matches Instruction::TypeRuntimeArray(x) && x.result_id == ops[0] && x.type_id
            == ops[1]
    } else if opcode == 30 {
        inst matches Instruction::TypeStruct(x) && x.result_id == ops[0] && x.member_types@
            == ops.skip(1)
    } else if opcode == 31 {
        inst matches Instruction::TypeOpaque(x) && x.result_id == ops[0] && x.name@
            == string_chars(ops.skip(1))
    } else if opcode == 32 {
        inst matches Instruction::TypePointer(x) && x.result_id == ops[0] && x.storage_class
            == ops[1] && x.type_id == ops[2]
    } else if opcode == 43 {
        inst matches Instruction::Constant(x) && x.result_type_id == ops[0] && x.result_id
            == ops[1] && x.data@ == ops.skip(2)
    } else if opcode == 56 {
        inst is FunctionEnd
    } else if opcode == 59 {
        inst matches Instruction::Variable(x) && x.result_type_id == ops[0] && x.result_id
            == ops[1] && x.storage_class == ops[2] && x.initializer == (if n >= 4 {
            Some(ops[3])
        } else {
            None
        })
    } else if opcode == 71 {
        inst matches Instruction::Decorate(x) && x.target_id == ops[0] && x.decoration == ops[1]
            && x.params@ == ops.skip(2)
    } else if opcode == 72 {
        inst matches Instruction::MemberDecorate(x) && x.target_id == ops[0] && x.member
            == ops[1] && x.decoration == ops[2] && x.params@ == ops.skip(3)
    } else if opcode == 248 {
        inst matches Instruction::Label(x) && x.result_id == ops[0]
    } else if opcode == 249 {
        inst matches Instruction::Branch(x) && x.result_id == ops[0]
    } else if opcode == 252 {
        inst is Kill
    } else if opcode == 253 {
        inst is Return
    } else {
        inst matches Instruction::Unknown(x) && x.0 == opcode && x.1@ == ops
    }
}

/// The opcode and operand words that encode `inst` in a SPIR-V module, as the
/// SPIR-V specification lays them out (result ids first, a signedness of 1
/// for signed integers and 0 for unsigned ones), for the type, variable,
/// decoration, capability and memory-model instructions; `None` for the
/// others.
pub open spec fn spirv_operands(inst: Instruction) -> Option<(u16, Seq<u32>)> {
    match inst {
        Instruction::MemoryModel(x) => Some((14u16, seq![x.0, x.1])),
        Instruction::Capability(x) => Some((17u16, seq![x.0])),
        Instruction::TypeVoid(x) => Some((19u16, seq![x.result_id])),
        Instruction::TypeBool(x) => Some((20u16, seq![x.result_id])),
        Instruction::TypeInt(x) => Some(
            (
                21u16,
                seq![
                    x.result_id,
                    x.width,
                    if x.signedness {
                        1u32
                    } else {
                        0u32
                    },
                ],
            ),
        ),
        Instruction::TypeFloat(x) => Some((22u16, seq![x.result_id, x.width])),
        Instruction::TypeVector(x) => Some((23u16, seq![x.result_id, x.component_id, x.count])),
        Instruction::TypeMatrix(x) => Some((24u16, seq![x.result_id, x.column_type_id, x.column_count])),
        Instruction::TypeSampledImage(x) => Some((27u16, seq![x.result_id, x.image_type_id])),
        Instruction::TypeArray(x) => Some((28u16, seq![x.result_id, x.type_id, x.length_id])),
        Instruction::TypeRuntimeArray(x) => Some((29u16, seq![x.result_id, x.type_id])),
        Instruction::TypeStruct(x) => Some((30u16, seq![x.result_id] + x.member_types@)),
        Instruction::TypePointer(x) => Some((32u16, seq![x.result_id, x.storage_class, x.type_id])),
        Instruction::Variable(x) => Some(
            (
                59u16,
                seq![x.result_type_id, x.result_id, x.storage_class] + match x.initializer {
                    Some(i) => seq![i],
                    None => Seq::<u32>::empty(),
                },
            ),
        ),
        Instruction::Decorate(x) => Some((71u16, seq![x.target_id, x.decoration] + x.params@)),
        Instruction::MemberDecorate(x) => Some(
            (72u16, seq![x.target_id, x.member, x.decoration] + x.params@),
        ),
        _ => None,
    }
}

/// Decoding gives back what was encoded: decoding the opcode and operands
/// that encode an instruction gives an instruction with the same encoding,
/// so the same kind and the same fields.
pub proof fn lemma_decode_encoded(inst: Instruction, decoded: Instruction)
    requires
        spirv_operands(inst) is Some,
        decodes_to(spirv_operands(inst).unwrap().0, spirv_operands(inst).unwrap().1, decoded),
    ensures
        spirv_operands(decoded) == spirv_operands(inst),
{
    let (op, ops) = spirv_operands(inst).unwrap();
    match inst {
        Instruction::TypeStruct(x) => {
            let y = decoded->TypeStruct_0;
            assert(ops.skip(1) =~= x.member_types@);
            assert(seq![y.result_id] + y.member_types@ =~= ops);
        },
        Instruction::Variable(x) => {
            let y = decoded->Variable_0;
            assert(seq![y.result_type_id, y.result_id, y.storage_class] + match y.initializer {
                Some(i) => seq![i],
                None => Seq::<u32>::empty(),
            } =~= ops);
        },
        Instruction::Decorate(x) => {
            let y = decoded->Decorate_0;
            assert(ops.skip(2) =~= x.params@);
            assert(seq![y.target_id, y.decoration] + y.params@ =~= ops);
        },
        Instruction::MemberDecorate(x) => {
            let y = decoded->MemberDecorate_0;
            assert(ops.skip(3) =~= x.params@);
            assert(seq![y.target_id, y.member, y.decoration] + y.params@ =~= ops);
        },
        _ => {},
    }
}

/// `OpTypeInt` is signed exactly when its signedness operand (the third) is
/// nonzero: 1 means signed, 0 unsigned.
pub proof fn lemma_type_int_signedness(ops: Seq<u32>, decoded: Instruction)
    requires
        ops.len() == 3,
        decodes_to(21, ops, decoded),
    ensures
        decoded matches Instruction::TypeInt(x) && x.result_id == ops[0] && x.width == ops[1] && (
        x.signedness <==> ops[2] != 0),
        ops[2] == 1 ==> decoded->TypeInt_0.signedness,
        ops[2] == 0 ==> !decoded->TypeInt_0.signedness,
{
}

/// The words of `ops` from `k` on, as a vector.
fn tail_vec(ops: &[u32], k: usize) -> (r: Vec<u32>)
    requires
        k <= ops@.len(),
    ensures
        r@ == ops@.skip(k as int),
{
    slice_to_vec(slice_subrange(ops, k, ops.len()))
}

/// Decodes one instruction from its opcode and operands; `None` when the
/// operands are malformed.
#[verifier::rlimit(40)]
fn decode_instruction(opcode: u16, ops: &[u32]) -> (r: Option<Result<Instruction, ParseError>>)
    ensures
        match r {
            None => decode_outcome(opcode, ops@) is Malformed,
            Some(Err(e)) => decode_outcome(opcode, ops@) == Decoded::Error(e),
            Some(Ok(inst)) => decode_outcome(opcode, ops@) is Valid && decodes_to(
                opcode,
                ops@,
                inst,
            ),
        },
{
    let n = ops.len();
    if opcode == 5 || opcode == 11 || opcode == 31 {
        if n < 1 {
            return None;
        }
        let rest = slice_subrange(ops, 1, n);
        match parse_string(rest) {
            None => None,
            Some((name, _)) => {
                if opcode == 5 {
                    Some(Ok(Instruction::Name(IName { target_id: ops[0], name })))
                } else if opcode == 11 {
                    Some(Ok(Instruction::ExtInstImport(IExtInstImport { result_id: ops[0], name })))
                } else {
                    Some(Ok(Instruction::TypeOpaque(ITypeOpaque { result_id: ops[0], name })))
                }
            },
        }
    } else if opcode == 6 {
        if n < 2 {
            return None;
        }
        match parse_string(slice_subrange(ops, 2, n)) {
            None => None,
            Some((name, _)) => Some(
                Ok(Instruction::MemberName(IMemberName { target_id: ops[0], member: ops[1], name })),
            ),
        }
    } else if opcode == 14 {
        if n < 1 {
            return None;
        }
        let am = match addressing_model_from_u32(ops[0]) {
            Some(v) => v,
            None => {
                return Some(Err(ParseError::UnknownConstant("unknown", ops[0])));
            },
        };
        if n < 2 {
            return None;
        }
        let mm = match memory_model_from_u32(ops[1]) {
            Some(v) => v,
            None => {
                return Some(Err(ParseError::UnknownConstant("unknown", ops[1])));
            },
        };
        Some(Ok(Instruction::MemoryModel(IMemoryModel(am, mm))))
    } else if opcode == 15 {
        if n < 2 {
            return None;
        }
        let rest = slice_subrange(ops, 2, n);
        match parse_string(rest) {
            None => None,
            Some((name, r)) => {
                let execution = match execution_model_from_u32(ops[0]) {
                    Some(v) => v,
                    None => {
                        return Some(Err(ParseError::UnknownConstant("unknown", ops[0])));
                    },
                };
                let interface = tail_vec(rest, r);
                Some(
                    Ok(
                        Instruction::EntryPoint(
                            IEntryPoint { execution, id: ops[1], name, interface },
                        ),
                    ),
                )
            },
        }
    } else if opcode == 16 {
        if n < 2 {
            return None;
        }
        let mode = match execution_mode_from_u32(ops[1]) {
            Some(v) => v,
            None => {
                return Some(Err(ParseError::UnknownConstant("unknown", ops[1])));
            },
        };
        Some(
            Ok(
                Instruction::ExecutionMode(
                    IExecutionMode {
                        target_id: ops[0],
                        mode,
                        optional_literals: tail_vec(ops, 2),
                    },
                ),
            ),
        )
    } else if opcode == 17 {
        if n < 1 {
            return None;
        }
        match capability_from_u32(ops[0]) {
            Some(v) => Some(Ok(Instruction::Capability(ICapability(v)))),
            None => Some(Err(ParseError::UnknownConstant("unknown", ops[0]))),
        }
    } else if opcode == 19 || opcode == 20 || opcode == 26 || opcode == 30 || opcode == 248
        || opcode == 249 {
        if n < 1 {
            return None;
        }
        let id = ops[0];
        if opcode == 19 {
            Some(Ok(Instruction::TypeVoid(ITypeVoid { result_id: id })))
        } else if opcode == 20 {
            Some(Ok(Instruction::TypeBool(ITypeBool { result_id: id })))
        } else if opcode == 26 {
            Some(Ok(Instruction::TypeSampler(ITypeSampler { result_id: id })))
        } else if opcode == 30 {
            Some(
                Ok(
                    Instruction::TypeStruct(
                        ITypeStruct { result_id: id, member_types: tail_vec(ops, 1) },
                    ),
                ),
            )
        } else if opcode == 248 {
            Some(Ok(Instruction::Label(ILabel { result_id: id })))
        } else {
            Some(Ok(Instruction::Branch(IBranch { result_id: id })))
        }
    } else if opcode == 22 || opcode == 27 || opcode == 29 || opcode == 43 {
        if n < 2 {
            return None;
        }
        if opcode == 22 {
            Some(Ok(Instruction::TypeFloat(ITypeFloat { result_id: ops[0], width: ops[1] })))
        } else if opcode == 27 {
            Some(
                Ok(
                    Instruction::TypeSampledImage(
                        ITypeSampledImage { result_id: ops[0], image_type_id: ops[1] },
                    ),
                ),
            )
        } else if opcode == 29 {
            Some(
                Ok(
                    Instruction::TypeRuntimeArray(
                        ITypeRuntimeArray { result_id: ops[0], type_id: ops[1] },
                    ),
                ),
            )
        } else {
            Some(
                Ok(
                    Instruction::Constant(
                        IConstant {
                            result_type_id: ops[0],
                            result_id: ops[1],
                            data: tail_vec(ops, 2),
                        },
                    ),
                ),
            )
        }
    } else if opcode == 21 || opcode == 23 || opcode == 24 || opcode == 28 {
        if n < 3 {
            return None;
        }
        if opcode == 21 {
            Some(
                Ok(
                    Instruction::TypeInt(
                        ITypeInt { result_id: ops[0], width: ops[1], signedness: ops[2] != 0 },
                    ),
                ),
            )
        } else if opcode == 23 {
            Some(
                Ok(
                    Instruction::TypeVector(
                        ITypeVector { result_id: ops[0], component_id: ops[1], count: ops[2] },
                    ),
                ),
            )
        } else if opcode == 24 {
            Some(
                Ok(
                    Instruction::TypeMatrix(
                        ITypeMatrix {
                            result_id: ops[0],
                            column_type_id: ops[1],
                            column_count: ops[2],
                        },
                    ),
                ),
            )
        } else {
            Some(
                Ok(
                    Instruction::TypeArray(
                        ITypeArray { result_id: ops[0], type_id: ops[1], length_id: ops[2] },
                    ),
                ),
            )
        }
    } else if opcode == 25 {
        decode_type_image(ops)
    } else if opcode == 32 {
        if n < 2 {
            return None;
        }
        let storage_class = match storage_class_from_u32(ops[1]) {
            Some(v) => v,
            None => {
                return Some(Err(ParseError::UnknownConstant("unknown", ops[1])));
            },
        };
        if n < 3 {
            return None;
        }
        Some(
            Ok(
                Instruction::TypePointer(
                    ITypePointer { result_id: ops[0], storage_class, type_id: ops[2] },
                ),
            ),
        )
    } else if opcode == 59 {
        if n < 3 {
            return None;
        }
        let storage_class = match storage_class_from_u32(ops[2]) {
            Some(v) => v,
            None => {
                return Some(Err(ParseError::UnknownConstant("unknown", ops[2])));
            },
        };
        let initializer = if n >= 4 {
            Some(ops[3])
        } else {
            None
        };
        Some(
            Ok(
                Instruction::Variable(
                    IVariable {
                        result_type_id: ops[0],
                        result_id: ops[1],
                        storage_class,
                        initializer,
                    },
                ),
            ),
        )
    } else if opcode == 71 {
        if n < 2 {
            return None;
        }
        let decoration = match decoration_from_u32(ops[1]) {
            Some(v) => v,
            None => {
                return Some(Err(ParseError::UnknownConstant("unknown", ops[1])));
            },
        };
        Some(
            Ok(
                Instruction::Decorate(
                    IDecorate { target_id: ops[0], decoration, params: tail_vec(ops, 2) },
                ),
            ),
        )
    } else if opcode == 72 {
        if n < 3 {
            return None;
        }
        let decoration = match decoration_from_u32(ops[2]) {
            Some(v) => v,
            None => {
                return Some(Err(ParseError::UnknownConstant("unknown", ops[2])));
            },
        };
        Some(
            Ok(
                Instruction::MemberDecorate(
                    IMemberDecorate {
                        target_id: ops[0],
                        member: ops[1],
                        decoration,
                        params: tail_vec(ops, 3),
                    },
                ),
            ),
        )
    } else if opcode == 0 {
        Some(Ok(Instruction::Nop))
    } else if opcode == 56 {
        Some(Ok(Instruction::FunctionEnd))
    } else if opcode == 252 {
        Some(Ok(Instruction::Kill))
    } else if opcode == 253 {
        Some(Ok(Instruction::Return))
    } else {
        Some(Ok(Instruction::Unknown(IUnknownInst(opcode, slice_to_vec(ops)))))
    }
}

/// Decodes an image type (opcode 25).
fn decode_type_image(ops: &[u32]) -> (r: Option<Result<Instruction, ParseError>>)
    ensures
        match r {
            None => decode_outcome(25, ops@) is Malformed,
            Some(Err(e)) => decode_outcome(25, ops@) == Decoded::Error(e),
            Some(Ok(inst)) => decode_outcome(25, ops@) is Valid && decodes_to(25, ops@, inst),
        },
{
    let n = ops.len();
    if n < 3 {
        return None;
    }
    let dim = match dim_from_u32(ops[2]) {
        Some(v) => v,
        None => {
            return Some(Err(ParseError::UnknownConstant("unknown", ops[2])));
        },
    };
    if n < 4 || ops[3] > 2 || n < 7 || ops[6] > 2 || n < 8 {
        return None;
    }
    let depth = if ops[3] == 0 {
        Some(false)
    } else if ops[3] == 1 {
        Some(true)
    } else {
        None
    };
    let sampled = if ops[6] == 0 {
        None
    } else if ops[6] == 1 {
        Some(true)
    } else {
        Some(false)
    };
    let format = match image_format_from_u32(ops[7]) {
        Some(v) => v,
        None => {
            return Some(Err(ParseError::UnknownConstant("unknown", ops[7])));
        },
    };
    let access = if n >= 9 {
        match access_qualifier_from_u32(ops[8]) {
            Some(v) => Some(v),
            None => {
                return Some(Err(ParseError::UnknownConstant("unknown", ops[8])));
            },
        }
    } else {
        None
    };
    Some(
        Ok(
            Instruction::TypeImage(
                ITypeImage {
                    result_id: ops[0],
                    sampled_type_id: ops[1],
                    dim,
                    depth,
                    arrayed: ops[4] != 0,
                    ms: ops[5] != 0,
                    sampled,
                    format,
                    access,
                },
            ),
        ),
    )
}

// ---------------------------------------------------------------------------
// Instruction stream and module

/// What reading a SPIR-V module (or part of its instruction stream) gives: the
/// instructions as (opcode, operands) pairs, a parse error, or malformed
/// input.
pub enum SpirvOutcome {
    Parsed(Seq<(u16, Seq<u32>)>),
    Failed(ParseError),
    Malformed,
}

/// The instructions `spans` followed by those of `o`.
pub open spec fn prepend(spans: Seq<(u16, Seq<u32>)>, o: SpirvOutcome) -> SpirvOutcome {
    match o {
        SpirvOutcome::Parsed(rest) => SpirvOutcome::Parsed(spans + rest),
        _ => o,
    }
}

/// Word count (high half) of an instruction's first word.
pub open spec fn word_count_of(w: u32) -> int {
    (w >> 16u32) as int
}

/// Opcode (low half) of an instruction's first word.
pub open spec fn opcode_of(w: u32) -> u16 {
    (w & 0xffffu32) as u16
}

/// Reads the instruction stream `words`: each instruction is a first word
/// (word count, opcode) and its operands; a zero word count is malformed, a
/// word count beyond the end is an incomplete instruction.
pub open spec fn parse_stream(words: Seq<u32>) -> SpirvOutcome
    decreases words.len(),
{
    if words.len() == 0 {
        SpirvOutcome::Parsed(Seq::empty())
    } else {
        let wc = word_count_of(words[0]);
        let opcode = opcode_of(words[0]);
        if wc == 0 {
            SpirvOutcome::Malformed
        } else if words.len() < wc {
            SpirvOutcome::Failed(ParseError::IncompleteInstruction)
        } else {
            let ops = words.subrange(1, wc);
            match decode_outcome(opcode, ops) {
                Decoded::Malformed => SpirvOutcome::Malformed,
                Decoded::Error(e) => SpirvOutcome::Failed(e),
                Decoded::Valid => prepend(seq![(opcode, ops)], parse_stream(words.skip(wc))),
            }
        }
    }
}

/// The SPIR-V magic number.
pub const SPIRV_MAGIC: u32 = 0x07230203;

/// Reads a module from its words (in host byte order): a five-word header
/// starting with the magic number, then the instruction stream.
pub open spec fn spirv_words_outcome(words: Seq<u32>) -> SpirvOutcome {
    if words.len() < 5 {
        SpirvOutcome::Failed(ParseError::MissingHeader)
    } else if words[0] != SPIRV_MAGIC {
        SpirvOutcome::Failed(ParseError::WrongHeader)
    } else {
        parse_stream(words.skip(5))
    }
}

/// The version (major, minor) that the second header word encodes.
pub open spec fn header_version(w: u32) -> (u8, u8) {
    (((w & 0x00ff0000u32) >> 16u32) as u8, ((w & 0x0000ff00u32) >> 8u32) as u8)
}

/// `m` holds the header fields of `words` and the instructions `spans` in
/// order.
pub open spec fn module_matches(m: SpirvModule, words: Seq<u32>, spans: Seq<(u16, Seq<u32>)>) -> bool {
    &&& m.version == header_version(words[1])
    &&& m.bound == words[3]
    &&& m.instructions@.len() == spans.len()
    &&& forall|k: int|
        0 <= k < spans.len() ==> decodes_to(spans[k].0, spans[k].1, #[trigger] m.instructions@[k])
}

/// `r` is what reading `words` gives: `None` for malformed input, else the
/// parse error, or a module with the header fields and decoded instructions.
pub open spec fn words_result_matches(
    r: Option<Result<SpirvModule, ParseError>>,
    words: Seq<u32>,
) -> bool {
    match r {
        None => spirv_words_outcome(words) is Malformed,
        Some(Err(e)) => spirv_words_outcome(words) == SpirvOutcome::Failed(e),
        Some(Ok(m)) => match spirv_words_outcome(words) {
            SpirvOutcome::Parsed(spans) => module_matches(m, words, spans),
            _ => false,
        },
    }
}

/// Reads the instruction at the start of `words` (at least one word): the
/// instruction and its word count.
fn parse_instruction(words: &[u32]) -> (r: Option<Result<(Instruction, usize), ParseError>>)
    requires
        words@.len() >= 1,
    ensures
        ({
            let wc = word_count_of(words@[0]);
            let opcode = opcode_of(words@[0]);
            match r {
                None => wc == 0 || (words@.len() >= wc && decode_outcome(
                    opcode,
                    words@.subrange(1, wc),
                ) is Malformed),
                Some(Err(e)) => wc != 0 && ((words@.len() < wc && e
                    == ParseError::IncompleteInstruction) || (words@.len() >= wc
                    && decode_outcome(opcode, words@.subrange(1, wc)) == Decoded::Error(e))),
                Some(Ok((inst, n))) => wc != 0 && words@.len() >= wc && n == wc && decode_outcome(
                    opcode,
                    words@.subrange(1, wc),
                ) is Valid && decodes_to(opcode, words@.subrange(1, wc), inst),
            }
        }),
{
    let word_count = (words[0] >> 16) as usize;
    let opcode = (words[0] & 0xffff) as u16;
    if word_count == 0 {
        return None;
    }
    if words.len() < word_count {
        return Some(Err(ParseError::IncompleteInstruction));
    }
    match decode_instruction(opcode, slice_subrange(words, 1, word_count)) {
        None => None,
        Some(Err(e)) => Some(Err(e)),
        Some(Ok(inst)) => Some(Ok((inst, word_count))),
    }
}

/// Reads a module from its words, reporting malformed input as `None`.
pub fn parse_spirv_u32s_checked(i: &[u32]) -> (r: Option<Result<SpirvModule, ParseError>>)
    ensures
        words_result_matches(r, i@),
{
    if i.len() < 5 {
        return Some(Err(ParseError::MissingHeader));
    }
    if i[0] != SPIRV_MAGIC {
        return Some(Err(ParseError::WrongHeader));
    }
    let version = (((i[1] & 0x00ff0000) >> 16) as u8, ((i[1] & 0x0000ff00) >> 8) as u8);
    let body = slice_subrange(i, 5, i.len());
    let mut instructions: Vec<Instruction> = Vec::new();
    let mut pos: usize = 0;
    let ghost mut done: Seq<(u16, Seq<u32>)> = Seq::empty();
    proof {
        assert(body@.skip(0) =~= body@);
        assert(done + Seq::<(u16, Seq<u32>)>::empty() =~= done);
    }
    while pos < body.len()
        invariant
            i@.len() >= 5,
            i@[0] == SPIRV_MAGIC,
            body@ == i@.skip(5),
            pos <= body@.len(),
            parse_stream(body@) == prepend(done, parse_stream(body@.skip(pos as int))),
            instructions@.len() == done.len(),
            forall|k: int|
                0 <= k < done.len() ==> decodes_to(
                    done[k].0,
                    done[k].1,
                    #[trigger] instructions@[k],
                ),
        decreases body@.len() - pos,
    {
        let rest = slice_subrange(body, pos, body.len());
        proof {
            assert(rest@ =~= body@.skip(pos as int));
        }
        match parse_instruction(rest) {
            None => {
                proof {
                    assert(parse_stream(rest@) is Malformed);
                }
                return None;
            },
            Some(Err(e)) => {
                proof {
                    assert(parse_stream(rest@) == SpirvOutcome::Failed(e));
                }
                return Some(Err(e));
            },
            Some(Ok((inst, wc))) => {
                proof {
                    let x = (opcode_of(rest@[0]), rest@.subrange(1, wc as int));
                    assert(rest@.skip(wc as int) =~= body@.skip(pos + wc));
                    assert(done + (seq![x] + match parse_stream(body@.skip(pos + wc)) {
                        SpirvOutcome::Parsed(r) => r,
                        _ => Seq::empty(),
                    }) =~= done.push(x) + match parse_stream(body@.skip(pos + wc)) {
                        SpirvOutcome::Parsed(r) => r,
                        _ => Seq::empty(),
                    });
                    done = done.push(x);
                }
                instructions.push(inst);
                pos = pos + wc;
            },
        }
    }
    proof {
        assert(body@.skip(pos as int) =~= Seq::<u32>::empty());
        assert(done + Seq::<(u16, Seq<u32>)>::empty() =~= done);
    }
    Some(Ok(SpirvModule { version, bound: i[3], instructions }))
}

/// Parses a SPIR-V document from a list of u32s.
///
/// Endianess has already been handled.
pub fn parse_spirv_u32s(i: &[u32]) -> (r: Result<SpirvModule, ParseError>)
    requires
        !(spirv_words_outcome(i@) is Malformed),
    ensures
        words_result_matches(Some(r), i@),
{
    match parse_spirv_u32s_checked(i) {
        Some(r) => r,
        None => {
            proof {
                assert(false);
            }
            Err(ParseError::MissingHeader)
        },
    }
}

// ---------------------------------------------------------------------------
// Byte streams

/// Word `k` of `data` read in big-endian byte order.
pub open spec fn be_word(data: Seq<u8>, k: int) -> u32 {
    ((data[4 * k] as u32) << 24u32) | ((data[4 * k + 1] as u32) << 16u32) | ((data[4 * k
        + 2] as u32) << 8u32) | (data[4 * k + 3] as u32)
}

/// Word `k` of `data` read in little-endian byte order.
pub open spec fn le_word(data: Seq<u8>, k: int) -> u32 {
    ((data[4 * k + 3] as u32) << 24u32) | ((data[4 * k + 2] as u32) << 16u32) | ((data[4 * k
        + 1] as u32) << 8u32) | (data[4 * k] as u32)
}

/// The magic number's bytes in big-endian order start `data`.
pub open spec fn starts_big_endian(data: Seq<u8>) -> bool {
    data[0] == 0x07 && data[1] == 0x23 && data[2] == 0x02 && data[3] == 0x03
}

/// The magic number's bytes in little-endian order start `data`.
pub open spec fn starts_little_endian(data: Seq<u8>) -> bool {
    data[3] == 0x07 && data[2] == 0x23 && data[1] == 0x02 && data[0] == 0x03
}

/// The words of `data`, in the byte order that its magic number shows.
pub open spec fn spirv_words(data: Seq<u8>) -> Seq<u32> {
    if starts_big_endian(data) {
        Seq::new(data.len() / 4, |k: int| be_word(data, k))
    } else {
        Seq::new(data.len() / 4, |k: int| le_word(data, k))
    }
}

/// Reads a module from bytes: at least 20 bytes, starting with the magic
/// number in either byte order; a length that is not a multiple of four is
/// malformed.
pub open spec fn spirv_bytes_outcome(data: Seq<u8>) -> SpirvOutcome {
    if data.len() < 20 || !(starts_big_endian(data) || starts_little_endian(data)) {
        SpirvOutcome::Failed(ParseError::MissingHeader)
    } else if data.len() % 4 != 0 {
        SpirvOutcome::Malformed
    } else {
        spirv_words_outcome(spirv_words(data))
    }
}

/// `r` is what reading the bytes `data` gives.
pub open spec fn bytes_result_matches(
    r: Option<Result<SpirvModule, ParseError>>,
    data: Seq<u8>,
) -> bool {
    if data.len() < 20 || !(starts_big_endian(data) || starts_little_endian(data)) {
        r == Some(Err::<SpirvModule, ParseError>(ParseError::MissingHeader))
    } else if data.len() % 4 != 0 {
        r is None
    } else {
        words_result_matches(r, spirv_words(data))
    }
}

/// Assembles the words of `data` (a multiple of four bytes long) in the given
/// byte order.
fn assemble_words(data: &[u8], big_endian: bool) -> (r: Vec<u32>)
    requires
        data@.len() % 4 == 0,
    ensures
        big_endian ==> r@ == Seq::new(data@.len() / 4, |k: int| be_word(data@, k)),
        !big_endian ==> r@ == Seq::new(data@.len() / 4, |k: int| le_word(data@, k)),
{
    let mut words: Vec<u32> = Vec::new();
    let count = data.len() / 4;
    let mut k: usize = 0;
    while k < count
        invariant
            count == data@.len() / 4,
            data@.len() % 4 == 0,
            k <= count,
            words@.len() == k,
            forall|j: int|
                0 <= j < k ==> #[trigger] words@[j] == (if big_endian {
                    be_word(data@, j)
                } else {
                    le_word(data@, j)
                }),
        decreases count - k,
    {
        proof {
            assert(4 * k + 4 <= data@.len()) by (nonlinear_arith)
                requires
                    k < count,
                    count == data@.len() / 4,
            ;
            assert(data@.len() == data.len());
        }
        let b = 4 * k;
        let w = if big_endian {
            ((data[b] as u32) << 24) | ((data[b + 1] as u32) << 16) | ((data[b + 2] as u32) << 8)
                | (data[b + 3] as u32)
        } else {
            ((data[b + 3] as u32) << 24) | ((data[b + 2] as u32) << 16) | ((data[b + 1] as u32)
                << 8) | (data[b] as u32)
        };
        words.push(w);
        k = k + 1;
    }
    proof {
        if big_endian {
            assert(words@ =~= Seq::new(data@.len() / 4, |k: int| be_word(data@, k)));
        } else {
            assert(words@ =~= Seq::new(data@.len() / 4, |k: int| le_word(data@, k)));
        }
    }
    words
}

/// Parses a SPIR-V document, reporting malformed input as `None`.
pub fn parse_spirv_checked(data: &[u8]) -> (r: Option<Result<SpirvModule, ParseError>>)
    ensures
        bytes_result_matches(r, data@),
{
    if data.len() < 20 {
        return Some(Err(ParseError::MissingHeader));
    }
    let big_endian = data[0] == 0x07 && data[1] == 0x23 && data[2] == 0x02 && data[3] == 0x03;
    let little_endian = data[3] == 0x07 && data[2] == 0x23 && data[1] == 0x02 && data[0] == 0x03;
    if !big_endian && !little_endian {
        return Some(Err(ParseError::MissingHeader));
    }
    if data.len() % 4 != 0 {
        return None;
    }
    let words = assemble_words(data, big_endian);
    parse_spirv_u32s_checked(words.as_slice())
}

/// Parses a SPIR-V document.
pub fn parse_spirv(data: &[u8]) -> (r: Result<SpirvModule, ParseError>)
    requires
        !(spirv_bytes_outcome(data@) is Malformed),
    ensures
        bytes_result_matches(Some(r), data@),
{
    match parse_spirv_checked(data) {
        Some(r) => r,
        None => {
            proof {
                assert(false);
            }
            Err(ParseError::MissingHeader)
        },
    }
}

// ---------------------------------------------------------------------------
// Byte order

/// `words` as little-endian bytes.
pub open spec fn le_bytes(words: Seq<u32>) -> Seq<u8> {
    Seq::new(4 * words.len(), |i: int| ((words[i / 4] >> ((8 * (i % 4)) as u32)) & 0xff) as u8)
}

/// `words` as big-endian bytes.
pub open spec fn be_bytes(words: Seq<u32>) -> Seq<u8> {
    Seq::new(
        4 * words.len(),
        |i: int| ((words[i / 4] >> ((8 * (3 - i % 4)) as u32)) & 0xff) as u8,
    )
}

proof fn lemma_byte_index(k: int, j: int)
    requires
        0 <= j < 4,
    ensures
        (4 * k + j) / 4 == k,
        (4 * k + j) % 4 == j,
{
    assert((4 * k + j) / 4 == k && (4 * k + j) % 4 == j) by (nonlinear_arith)
        requires
            0 <= j < 4,
    ;
}

proof fn lemma_le_word_roundtrip(words: Seq<u32>, k: int)
    requires
        0 <= k < words.len(),
    ensures
        le_word(le_bytes(words), k) == words[k],
        be_word(be_bytes(words), k) == words[k],
{
    let w = words[k];
    let lb = le_bytes(words);
    let bb = be_bytes(words);
    lemma_byte_index(k, 0);
    lemma_byte_index(k, 1);
    lemma_byte_index(k, 2);
    lemma_byte_index(k, 3);
    assert(4 * k + 3 < 4 * words.len()) by (nonlinear_arith)
        requires
            0 <= k < words.len(),
    ;
    let b0 = lb[4 * k];
    let b1 = lb[4 * k + 1];
    let b2 = lb[4 * k + 2];
    let b3 = lb[4 * k + 3];
    assert(b0 == ((w >> 0u32) & 0xff) as u8);
    assert(b1 == ((w >> 8u32) & 0xff) as u8);
    assert(b2 == ((w >> 16u32) & 0xff) as u8);
    assert(b3 == ((w >> 24u32) & 0xff) as u8);
    assert(((b3 as u32) << 24u32) | ((b2 as u32) << 16u32) | ((b1 as u32) << 8u32) | (b0 as u32)
        == w) by (bit_vector)
        requires
            b0 == ((w >> 0u32) & 0xff) as u8,
            b1 == ((w >> 8u32) & 0xff) as u8,
            b2 == ((w >> 16u32) & 0xff) as u8,
            b3 == ((w >> 24u32) & 0xff) as u8,
    ;
    let c0 = bb[4 * k];
    let c1 = bb[4 * k + 1];
    let c2 = bb[4 * k + 2];
    let c3 = bb[4 * k + 3];
    assert(c0 == ((w >> 24u32) & 0xff) as u8);
    assert(c1 == ((w >> 16u32) & 0xff) as u8);
    assert(c2 == ((w >> 8u32) & 0xff) as u8);
    assert(c3 == ((w >> 0u32) & 0xff) as u8);
    assert(((c0 as u32) << 24u32) | ((c1 as u32) << 16u32) | ((c2 as u32) << 8u32) | (c3 as u32)
        == w) by (bit_vector)
        requires
            c0 == ((w >> 24u32) & 0xff) as u8,
            c1 == ((w >> 16u32) & 0xff) as u8,
            c2 == ((w >> 8u32) & 0xff) as u8,
            c3 == ((w >> 0u32) & 0xff) as u8,
    ;
}

/// A module reads the same from its little-endian and its big-endian bytes
/// as from its words: the byte order is recognized from the magic number,
/// so `parse_spirv` on either byte sequence gives what `parse_spirv_u32s`
/// gives on the words (the same module, or the same error).
pub proof fn lemma_byte_order_is_recognized(words: Seq<u32>)
    requires
        words.len() >= 5,
        words[0] == SPIRV_MAGIC,
    ensures
        spirv_bytes_outcome(le_bytes(words)) == spirv_words_outcome(words),
        spirv_bytes_outcome(be_bytes(words)) == spirv_words_outcome(words),
        forall|r: Option<Result<SpirvModule, ParseError>>|
            #[trigger] bytes_result_matches(r, le_bytes(words)) == words_result_matches(r, words),
        forall|r: Option<Result<SpirvModule, ParseError>>|
            #[trigger] bytes_result_matches(r, be_bytes(words)) == words_result_matches(r, words),
{
    let lb = le_bytes(words);
    let bb = be_bytes(words);
    let m = words[0];
    lemma_byte_index(0, 0);
    lemma_byte_index(0, 1);
    lemma_byte_index(0, 2);
    lemma_byte_index(0, 3);
    assert(lb[0] == 0x03 && lb[1] == 0x02 && lb[2] == 0x23 && lb[3] == 0x07) by {
        assert(((m >> 0u32) & 0xff) as u8 == 0x03 && ((m >> 8u32) & 0xff) as u8 == 0x02 && ((m
            >> 16u32) & 0xff) as u8 == 0x23 && ((m >> 24u32) & 0xff) as u8 == 0x07)
            by (bit_vector)
            requires
                m == 0x07230203u32,
        ;
    }
    assert(bb[0] == 0x07 && bb[1] == 0x23 && bb[2] == 0x02 && bb[3] == 0x03) by {
        assert(((m >> 24u32) & 0xff) as u8 == 0x07 && ((m >> 16u32) & 0xff) as u8 == 0x23 && ((m
            >> 8u32) & 0xff) as u8 == 0x02 && ((m >> 0u32) & 0xff) as u8 == 0x03)
            by (bit_vector)
            requires
                m == 0x07230203u32,
        ;
    }
    assert(lb.len() % 4 == 0 && bb.len() % 4 == 0 && lb.len() / 4 == words.len() && bb.len() / 4
        == words.len()) by (nonlinear_arith)
        requires
            lb.len() == 4 * words.len(),
            bb.len() == 4 * words.len(),
    ;
    assert forall|k: int| 0 <= k < words.len() implies le_word(lb, k) == words[k] && be_word(
        bb,
        k,
    ) == words[k] by {
        lemma_le_word_roundtrip(words, k);
    }
    assert(spirv_words(lb) =~= words);
    assert(spirv_words(bb) =~= words);
}

} // verus!
