//! The SPIR-V operand enumerations that the parser checks.
//!
//! Each enumeration is held as its numeric value. A value is accepted when
//! `spirv_headers` has a variant with that number; the sets below list those
//! numbers.

use vstd::prelude::*;
use num_traits::FromPrimitive;

verus! {

/// The numbers of the variants of `spirv_headers::AddressingModel` (SPIR-V addressing model).
pub open spec fn is_addressing_model(v: u32) -> bool {
    v <= 2 || v == 5348
}

/// Checks an addressing model number with `spirv_headers::AddressingModel::from_u32`, which
/// matches the number against the variants' numbers: the number itself when it
/// names a variant, `None` otherwise.
#[verifier::external_body]
pub(crate) fn addressing_model_from_u32(value: u32) -> (r: Option<u32>)
    ensures
        r == (if is_addressing_model(value) {
            Some(value)
        } else {
            None
        }),
{
    match spirv_headers::AddressingModel::from_u32(value) {
        Some(x) => Some(x as u32),
        None => None,
    }
}

/// The numbers of the variants of `spirv_headers::MemoryModel` (SPIR-V memory model).
pub open spec fn is_memory_model(v: u32) -> bool {
    v <= 3
}

/// Checks a memory model number with `spirv_headers::MemoryModel::from_u32`, which
/// matches the number against the variants' numbers: the number itself when it
/// names a variant, `None` otherwise.
#[verifier::external_body]
pub(crate) fn memory_model_from_u32(value: u32) -> (r: Option<u32>)
    ensures
        r == (if is_memory_model(value) {
            Some(value)
        } else {
            None
        }),
{
    match spirv_headers::MemoryModel::from_u32(value) {
        Some(x) => Some(x as u32),
        None => None,
    }
}

/// The numbers of the variants of `spirv_headers::ExecutionModel` (SPIR-V execution model).
pub open spec fn is_execution_model(v: u32) -> bool {
    v <= 6 || (5267 <= v && v <= 5268) || (5313 <= v && v <= 5318)
}

/// Checks an execution model number with `spirv_headers::ExecutionModel::from_u32`, which
/// matches the number against the variants' numbers: the number itself when it
/// names a variant, `None` otherwise.
#[verifier::external_body]
pub(crate) fn execution_model_from_u32(value: u32) -> (r: Option<u32>)
    ensures
        r == (if is_execution_model(value) {
            Some(value)
        } else {
            None
        }),
{
    match spirv_headers::ExecutionModel::from_u32(value) {
        Some(x) => Some(x as u32),
        None => None,
    }
}

/// The numbers of the variants of `spirv_headers::ExecutionMode` (SPIR-V execution mode).
pub open spec fn is_execution_mode(v: u32) -> bool {
    v <= 12 || (14 <= v && v <= 31) || (33 <= v && v <= 39) || v == 4446 ||
    (4459 <= v && v <= 4463) || v == 5027 || (5269 <= v && v <= 5270) ||
    (5289 <= v && v <= 5290) || v == 5298 || (5366 <= v && v <= 5371)
}

/// Checks an execution mode number with `spirv_headers::ExecutionMode::from_u32`, which
/// matches the number against the variants' numbers: the number itself when it
/// names a variant, `None` otherwise.
#[verifier::external_body]
pub(crate) fn execution_mode_from_u32(value: u32) -> (r: Option<u32>)
    ensures
        r == (if is_execution_mode(value) {
            Some(value)
        } else {
            None
        }),
{
    match spirv_headers::ExecutionMode::from_u32(value) {
        Some(x) => Some(x as u32),
        None => None,
    }
}

/// The numbers of the variants of `spirv_headers::Capability` (SPIR-V capability).
pub open spec fn is_capability(v: u32) -> bool {
    v <= 15 || (17 <= v && v <= 25) || (27 <= v && v <= 70) || v == 4423 || v == 4427 ||
    v == 4431 || (4433 <= v && v <= 4437) || v == 4439 || (4441 <= v && v <= 4442) ||
    v == 4445 || (4447 <= v && v <= 4450) || (4464 <= v && v <= 4468) || v == 4471 ||
    v == 4478 || (5008 <= v && v <= 5010) || v == 5013 || v == 5015 || v == 5055 ||
    v == 5249 || v == 5251 || (5254 <= v && v <= 5255) || (5259 <= v && v <= 5260) ||
    (5265 <= v && v <= 5266) || v == 5282 || v == 5284 || v == 5288 || v == 5291 ||
    v == 5297 || (5301 <= v && v <= 5312) || v == 5340 || (5345 <= v && v <= 5347) ||
    v == 5350 || v == 5353 || v == 5357 || v == 5363 || (5372 <= v && v <= 5373) ||
    (5378 <= v && v <= 5379) || (5568 <= v && v <= 5570) || v == 5579 || v == 5584 ||
    (5696 <= v && v <= 5698)
}

/// Checks a capability number with `spirv_headers::Capability::from_u32`, which
/// matches the number against the variants' numbers: the number itself when it
/// names a variant, `None` otherwise.
#[verifier::external_body]
pub(crate) fn capability_from_u32(value: u32) -> (r: Option<u32>)
    ensures
        r == (if is_capability(value) {
            Some(value)
        } else {
            None
        }),
{
    match spirv_headers::Capability::from_u32(value) {
        Some(x) => Some(x as u32),
        None => None,
    }
}

/// The numbers of the variants of `spirv_headers::Dim` (SPIR-V image dimensionality).
pub open spec fn is_dim(v: u32) -> bool {
    v <= 6
}

/// Checks an image dimensionality number with `spirv_headers::Dim::from_u32`, which
/// matches the number against the variants' numbers: the number itself when it
/// names a variant, `None` otherwise.
#[verifier::external_body]
pub(crate) fn dim_from_u32(value: u32) -> (r: Option<u32>)
    ensures
        r == (if is_dim(value) {
            Some(value)
        } else {
            None
        }),
{
    match spirv_headers::Dim::from_u32(value) {
        Some(x) => Some(x as u32),
        None => None,
    }
}

/// The numbers of the variants of `spirv_headers::ImageFormat` (SPIR-V image format).
pub open spec fn is_image_format(v: u32) -> bool {
    v <= 39
}

/// Checks an image format number with `spirv_headers::ImageFormat::from_u32`, which
/// matches the number against the variants' numbers: the number itself when it
/// names a variant, `None` otherwise.
#[verifier::external_body]
pub(crate) fn image_format_from_u32(value: u32) -> (r: Option<u32>)
    ensures
        r == (if is_image_format(value) {
            Some(value)
        } else {
            None
        }),
{
    match spirv_headers::ImageFormat::from_u32(value) {
        Some(x) => Some(x as u32),
        None => None,
    }
}

/// The numbers of the variants of `spirv_headers::AccessQualifier` (SPIR-V access qualifier).
pub open spec fn is_access_qualifier(v: u32) -> bool {
    v <= 2
}

/// Checks an access qualifier number with `spirv_headers::AccessQualifier::from_u32`, which
/// matches the number against the variants' numbers: the number itself when it
/// names a variant, `None` otherwise.
#[verifier::external_body]
pub(crate) fn access_qualifier_from_u32(value: u32) -> (r: Option<u32>)
    ensures
        r == (if is_access_qualifier(value) {
            Some(value)
        } else {
            None
        }),
{
    match spirv_headers::AccessQualifier::from_u32(value) {
        Some(x) => Some(x as u32),
        None => None,
    }
}

/// The numbers of the variants of `spirv_headers::StorageClass` (SPIR-V storage class).
pub open spec fn is_storage_class(v: u32) -> bool {
    v <= 12 || (5328 <= v && v <= 5329) || (5338 <= v && v <= 5339) ||
    (5342 <= v && v <= 5343) || v == 5349
}

/// Checks a storage class number with `spirv_headers::StorageClass::from_u32`, which
/// matches the number against the variants' numbers: the number itself when it
/// names a variant, `None` otherwise.
#[verifier::external_body]
pub(crate) fn storage_class_from_u32(value: u32) -> (r: Option<u32>)
    ensures
        r == (if is_storage_class(value) {
            Some(value)
        } else {
            None
        }),
{
    match spirv_headers::StorageClass::from_u32(value) {
        Some(x) => Some(x as u32),
        None => None,
    }
}

/// The numbers of the variants of `spirv_headers::Decoration` (SPIR-V decoration).
pub open spec fn is_decoration(v: u32) -> bool {
    v <= 11 || (13 <= v && v <= 47) || (4469 <= v && v <= 4470) || v == 4999 || v == 5248 ||
    v == 5250 || v == 5252 || v == 5256 || (5271 <= v && v <= 5273) || v == 5285 ||
    v == 5300 || (5355 <= v && v <= 5356) || (5634 <= v && v <= 5636)
}

/// Checks a decoration number with `spirv_headers::Decoration::from_u32`, which
/// matches the number against the variants' numbers: the number itself when it
/// names a variant, `None` otherwise.
#[verifier::external_body]
pub(crate) fn decoration_from_u32(value: u32) -> (r: Option<u32>)
    ensures
        r == (if is_decoration(value) {
            Some(value)
        } else {
            None
        }),
{
    match spirv_headers::Decoration::from_u32(value) {
        Some(x) => Some(x as u32),
        None => None,
    }
}

} // verus!
