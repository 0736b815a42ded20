//! The value types and constant expressions of the binary encoder, seen as
//! plain data.
//!
//! The library hands the encoder values of the encoder's own types. Each of
//! these types is declared here as an opaque type with a shape, which is a
//! plain value that says what it holds, and the trusted functions that build
//! a value state its shape.

use vstd::prelude::*;
use wasmparser::ValType;
use crate::ir::parser::{val_of, AbsHeap, HeapShape, ValShape};

verus! {

/// `wasm_encoder::AbstractHeapType`.
#[verifier::external_type_specification]
#[verifier::external_body]
pub struct ExAbstractHeapType(wasm_encoder::AbstractHeapType);

/// `wasm_encoder::HeapType`.
#[verifier::external_type_specification]
#[verifier::external_body]
pub struct ExHeapType(wasm_encoder::HeapType);

/// `wasm_encoder::ValType`.
#[verifier::external_type_specification]
#[verifier::external_body]
pub struct ExValType(wasm_encoder::ValType);

/// `wasm_encoder::ConstExpr`.
#[verifier::external_type_specification]
#[verifier::external_body]
pub struct ExConstExpr(wasm_encoder::ConstExpr);

/// What a heap type of the encoder holds.
#[derive(Clone, Copy, Debug, PartialEq, Eq, Structural)]
pub enum EncHeapShape {
    /// An abstract heap type, shared or not.
    Abstract { shared: bool, ty: AbsHeap },
    /// The type at an index of the type space.
    Concrete(u32),
}

/// What a value type of the encoder holds.
#[derive(Clone, Copy, Debug, PartialEq, Eq, Structural)]
pub enum EncValShape {
    I32,
    I64,
    F32,
    F64,
    V128,
    Ref { nullable: bool, heap: EncHeapShape },
}

/// What a constant expression of the encoder holds: its one instruction.
#[derive(Clone, Copy, Debug, PartialEq, Eq, Structural)]
pub enum EncConstShape {
    I32Const(i32),
    I64Const(i64),
    V128Const(i128),
    GlobalGet(u32),
    RefNull(EncHeapShape),
    RefFunc(u32),
}

/// The shape of an abstract heap type of the encoder: the variant of the
/// same name.
pub uninterp spec fn enc_abs_heap_of(ty: wasm_encoder::AbstractHeapType) -> AbsHeap;

/// The shape of a heap type of the encoder.
pub uninterp spec fn enc_heap_of(heap: wasm_encoder::HeapType) -> EncHeapShape;

/// The shape of a value type of the encoder.
pub uninterp spec fn enc_val_of(ty: wasm_encoder::ValType) -> EncValShape;

/// The shape of a constant expression of the encoder.
pub uninterp spec fn enc_const_of(expr: wasm_encoder::ConstExpr) -> EncConstShape;

/// A heap type of the encoder in parts: the abstract heap type inside is
/// the encoder's own value.
#[derive(Clone, Copy, Debug)]
pub enum EncHeapParts {
    Abstract { shared: bool, ty: wasm_encoder::AbstractHeapType },
    Concrete(u32),
}

impl EncHeapParts {
    /// The shape of the heap type that has these parts.
    pub open spec fn shape(self) -> EncHeapShape {
        match self {
            EncHeapParts::Abstract { shared, ty } => EncHeapShape::Abstract {
                shared,
                ty: enc_abs_heap_of(ty),
            },
            EncHeapParts::Concrete(i) => EncHeapShape::Concrete(i),
        }
    }
}

/// A value type of the encoder in parts: the heap type inside is the
/// encoder's own value.
#[derive(Clone, Copy, Debug)]
pub enum EncValParts {
    I32,
    I64,
    F32,
    F64,
    V128,
    Ref { nullable: bool, heap: wasm_encoder::HeapType },
}

impl EncValParts {
    /// The shape of the value type that has these parts.
    pub open spec fn shape(self) -> EncValShape {
        match self {
            EncValParts::I32 => EncValShape::I32,
            EncValParts::I64 => EncValShape::I64,
            EncValParts::F32 => EncValShape::F32,
            EncValParts::F64 => EncValShape::F64,
            EncValParts::V128 => EncValShape::V128,
            EncValParts::Ref { nullable, heap } => EncValShape::Ref {
                nullable,
                heap: enc_heap_of(heap),
            },
        }
    }
}

/// Makes the variant of `wasm_encoder::AbstractHeapType` of a given kind.
///
/// Trusted: the result is the variant with the same name as `kind`, `None`
/// for `NoneHeap`.
#[verifier::external_body]
pub(crate) fn enc_abstract_heap_type(kind: AbsHeap) -> (ty: wasm_encoder::AbstractHeapType)
    ensures
        enc_abs_heap_of(ty) == kind,
{
    match kind {
        AbsHeap::Func => wasm_encoder::AbstractHeapType::Func,
        AbsHeap::Extern => wasm_encoder::AbstractHeapType::Extern,
        AbsHeap::Any => wasm_encoder::AbstractHeapType::Any,
        AbsHeap::NoneHeap => wasm_encoder::AbstractHeapType::None,
        AbsHeap::NoExtern => wasm_encoder::AbstractHeapType::NoExtern,
        AbsHeap::NoFunc => wasm_encoder::AbstractHeapType::NoFunc,
        AbsHeap::Eq => wasm_encoder::AbstractHeapType::Eq,
        AbsHeap::Struct => wasm_encoder::AbstractHeapType::Struct,
        AbsHeap::Array => wasm_encoder::AbstractHeapType::Array,
        AbsHeap::I31 => wasm_encoder::AbstractHeapType::I31,
        AbsHeap::Exn => wasm_encoder::AbstractHeapType::Exn,
        AbsHeap::NoExn => wasm_encoder::AbstractHeapType::NoExn,
    }
}

/// Makes a `wasm_encoder::HeapType` from its parts.
///
/// Trusted: the result is the variant `Abstract` with the given fields, or
/// the variant `Concrete` with the given index.
#[verifier::external_body]
pub(crate) fn enc_heap_type(parts: EncHeapParts) -> (heap: wasm_encoder::HeapType)
    ensures
        enc_heap_of(heap) == parts.shape(),
{
    match parts {
        EncHeapParts::Abstract { shared, ty } => wasm_encoder::HeapType::Abstract { shared, ty },
        EncHeapParts::Concrete(i) => wasm_encoder::HeapType::Concrete(i),
    }
}

/// Makes a `wasm_encoder::ValType` from its parts.
///
/// Trusted: the result is the variant of the same name; the variant `Ref`
/// holds a `wasm_encoder::RefType` with the two given fields.
#[verifier::external_body]
pub(crate) fn enc_val_type(parts: EncValParts) -> (ty: wasm_encoder::ValType)
    ensures
        enc_val_of(ty) == parts.shape(),
{
    match parts {
        EncValParts::I32 => wasm_encoder::ValType::I32,
        EncValParts::I64 => wasm_encoder::ValType::I64,
        EncValParts::F32 => wasm_encoder::ValType::F32,
        EncValParts::F64 => wasm_encoder::ValType::F64,
        EncValParts::V128 => wasm_encoder::ValType::V128,
        EncValParts::Ref { nullable, heap } => wasm_encoder::ValType::Ref(
            wasm_encoder::RefType { nullable, heap_type: heap },
        ),
    }
}

/// What re-encoding makes of a value type of the decoder: the same type,
/// where a concrete reference is one to an index of the module's type
/// space. Other concrete references cannot be re-encoded.
pub open spec fn reencoded(ty: ValShape) -> Option<EncValShape> {
    match ty {
        ValShape::I32 => Some(EncValShape::I32),
        ValShape::I64 => Some(EncValShape::I64),
        ValShape::F32 => Some(EncValShape::F32),
        ValShape::F64 => Some(EncValShape::F64),
        ValShape::V128 => Some(EncValShape::V128),
        ValShape::Ref(r) => match r.heap {
            HeapShape::Abstract { shared, ty } => Some(
                EncValShape::Ref {
                    nullable: r.nullable,
                    heap: EncHeapShape::Abstract { shared, ty },
                },
            ),
            HeapShape::Module(i) => Some(
                EncValShape::Ref { nullable: r.nullable, heap: EncHeapShape::Concrete(i) },
            ),
            HeapShape::RecGroup(_) => None,
            HeapShape::Id => None,
        },
    }
}

/// Re-encodes a value type of the decoder as one of the encoder, with
/// `wasm_encoder::reencode::RoundtripReencoder`.
///
/// Trusted: the numeric and vector types map to the variant of the same
/// name. A reference type keeps its nullability; an abstract heap type keeps
/// its sharedness and its name, a module index stays as it is, and any other
/// concrete heap type is an error, which is returned as `None`.
#[verifier::external_body]
pub(crate) fn reencode_val_type(ty: ValType) -> (r: Option<wasm_encoder::ValType>)
    ensures
        match r {
            Some(e) => reencoded(val_of(ty)) == Some(enc_val_of(e)),
            None => reencoded(val_of(ty)) is None,
        },
{
    wasm_encoder::reencode::Reencode::val_type(
        &mut wasm_encoder::reencode::RoundtripReencoder,
        ty,
    ).ok()
}

/// `ConstExpr::i32_const`: the constant expression `i32.const value`.
pub assume_specification[ wasm_encoder::ConstExpr::i32_const ](value: i32) -> (expr:
    wasm_encoder::ConstExpr)
    ensures
        enc_const_of(expr) == EncConstShape::I32Const(value),
;

/// `ConstExpr::i64_const`: the constant expression `i64.const value`.
pub assume_specification[ wasm_encoder::ConstExpr::i64_const ](value: i64) -> (expr:
    wasm_encoder::ConstExpr)
    ensures
        enc_const_of(expr) == EncConstShape::I64Const(value),
;

/// `ConstExpr::v128_const`: the constant expression `v128.const value`.
pub assume_specification[ wasm_encoder::ConstExpr::v128_const ](value: i128) -> (expr:
    wasm_encoder::ConstExpr)
    ensures
        enc_const_of(expr) == EncConstShape::V128Const(value),
;

/// `ConstExpr::global_get`: the constant expression `global.get index`.
pub assume_specification[ wasm_encoder::ConstExpr::global_get ](index: u32) -> (expr:
    wasm_encoder::ConstExpr)
    ensures
        enc_const_of(expr) == EncConstShape::GlobalGet(index),
;

/// `ConstExpr::ref_null`: the constant expression `ref.null ty`.
pub assume_specification[ wasm_encoder::ConstExpr::ref_null ](ty: wasm_encoder::HeapType) -> (expr:
    wasm_encoder::ConstExpr)
    ensures
        enc_const_of(expr) == EncConstShape::RefNull(enc_heap_of(ty)),
;

/// `ConstExpr::ref_func`: the constant expression `ref.func func`.
pub assume_specification[ wasm_encoder::ConstExpr::ref_func ](func: u32) -> (expr:
    wasm_encoder::ConstExpr)
    ensures
        enc_const_of(expr) == EncConstShape::RefFunc(func),
;

/// The heap type of the encoder with the given shape.
pub fn heap_type_of_shape(shape: EncHeapShape) -> (heap: wasm_encoder::HeapType)
    ensures
        enc_heap_of(heap) == shape,
{
    match shape {
        EncHeapShape::Abstract { shared, ty } => enc_heap_type(
            EncHeapParts::Abstract { shared, ty: enc_abstract_heap_type(ty) },
        ),
        EncHeapShape::Concrete(i) => enc_heap_type(EncHeapParts::Concrete(i)),
    }
}

/// The value type of the encoder with the given shape.
pub fn val_type_of_shape(shape: EncValShape) -> (ty: wasm_encoder::ValType)
    ensures
        enc_val_of(ty) == shape,
{
    match shape {
        EncValShape::I32 => enc_val_type(EncValParts::I32),
        EncValShape::I64 => enc_val_type(EncValParts::I64),
        EncValShape::F32 => enc_val_type(EncValParts::F32),
        EncValShape::F64 => enc_val_type(EncValParts::F64),
        EncValShape::V128 => enc_val_type(EncValParts::V128),
        EncValShape::Ref { nullable, heap } => enc_val_type(
            EncValParts::Ref { nullable, heap: heap_type_of_shape(heap) },
        ),
    }
}

} // verus!
