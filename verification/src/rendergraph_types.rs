//! Types of the render graph description language.

use vstd::prelude::*;

verus! {

#[derive(Copy, Clone, Debug, PartialEq, Eq, Structural)]
pub enum PrimitiveType {
    Float,
    Int,
    UnsignedInt,
    Half,
    Double,
    Sampler2D,
}

#[derive(Debug)]
pub enum Type {
    Primitive(PrimitiveType),
    Array(Box<Type>, usize),
    Vector(PrimitiveType, u8),
    Matrix(PrimitiveType, u8, u8),
    Struct(String),
}

} // verus!
