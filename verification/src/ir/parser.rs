//! The value types of the binary decoder, seen as plain data.
//!
//! The decoder packs a reference type into three bytes and hands heap types
//! and value types out as enums of its own. The library does not look into
//! these values itself. Each type is declared here as an opaque type, given
//! a shape, which is a plain value that says what it holds, and a handful of
//! trusted functions that take a value apart or build one. Every trusted
//! function states its result through the shape.

use vstd::prelude::*;
use wasmparser::{
    AbstractHeapType, ConstExpr, Data, DataKind, HeapType, Operator, RefType, UnpackedIndex,
    ValType,
};

verus! {

/// `wasmparser::AbstractHeapType`.
#[verifier::external_type_specification]
#[verifier::external_body]
pub struct ExAbstractHeapType(AbstractHeapType);

/// `wasmparser::HeapType`.
#[verifier::external_type_specification]
#[verifier::external_body]
pub struct ExHeapType(HeapType);

/// `wasmparser::RefType`.
#[verifier::external_type_specification]
#[verifier::external_body]
pub struct ExRefType(RefType);

/// `wasmparser::ValType`.
#[verifier::external_type_specification]
#[verifier::external_body]
pub struct ExValType(ValType);

/// `wasmparser::ConstExpr`: the bytes of a constant expression, not yet
/// decoded.
#[verifier::external_type_specification]
#[verifier::external_body]
pub struct ExConstExpr<'a>(ConstExpr<'a>);

/// `wasmparser::Data`: a data segment as the decoder hands it out.
#[verifier::external_type_specification]
#[verifier::external_body]
pub struct ExData<'a>(Data<'a>);

/// The abstract heap types.
#[derive(Clone, Copy, Debug, PartialEq, Eq, Structural)]
pub enum AbsHeap {
    Func,
    Extern,
    Any,
    /// The bottom type of the `any` hierarchy, written `none`.
    NoneHeap,
    NoExtern,
    NoFunc,
    Eq,
    Struct,
    Array,
    I31,
    Exn,
    NoExn,
}

/// What a heap type holds.
#[derive(Clone, Copy, Debug, PartialEq, Eq, Structural)]
pub enum HeapShape {
    /// An abstract heap type, shared or not.
    Abstract { shared: bool, ty: AbsHeap },
    /// The type at an index of the module's type space.
    Module(u32),
    /// The type at an index of the enclosing recursion group.
    RecGroup(u32),
    /// A type known by its identifier in a validator's type list.
    Id,
}

/// What a reference type holds.
#[derive(Clone, Copy, Debug, PartialEq, Eq, Structural)]
pub struct RefShape {
    pub nullable: bool,
    pub heap: HeapShape,
}

/// What a value type holds.
#[derive(Clone, Copy, Debug, PartialEq, Eq, Structural)]
pub enum ValShape {
    I32,
    I64,
    F32,
    F64,
    V128,
    Ref(RefShape),
}

/// What a block type of the decoder holds.
#[derive(Clone, Copy, Debug, PartialEq, Eq, Structural)]
pub enum BlockShape {
    Empty,
    Type(ValShape),
    FuncType(u32),
}

/// What an operator holds, as far as constant expressions are concerned:
/// the eight constant operators with their immediates, and `end`. Every
/// other operator is `Other`. A floating-point constant is given by its
/// bits, a vector constant by the number whose little-endian bytes it holds.
#[derive(Clone, Copy, Debug, PartialEq, Eq, Structural)]
pub enum ConstShape {
    I32Const(i32),
    I64Const(i64),
    F32Const(u32),
    F64Const(u64),
    V128Const(u128),
    GlobalGet(u32),
    RefNull(HeapShape),
    RefFunc(u32),
    End,
    Other,
}

/// The largest type index that a packed reference type can hold, plus one.
pub open spec fn index_limit() -> int {
    0x10_0000
}

impl HeapShape {
    /// Whether a reference to this heap type can be built from the shape
    /// and packed: an index must be below [`index_limit`], and a type that
    /// is given by a validator's identifier cannot be built from its shape.
    pub open spec fn fits(self) -> bool {
        match self {
            HeapShape::Abstract { .. } => true,
            HeapShape::Module(i) => i < index_limit(),
            HeapShape::RecGroup(i) => i < index_limit(),
            HeapShape::Id => false,
        }
    }
}

/// The shape of an abstract heap type: the variant of the same name.
pub uninterp spec fn abs_heap_of(ty: AbstractHeapType) -> AbsHeap;

/// The shape of a heap type.
pub uninterp spec fn heap_of(heap: HeapType) -> HeapShape;

/// The shape of a reference type: what it was packed from.
pub uninterp spec fn ref_of(ty: RefType) -> RefShape;

/// The shape of a value type.
pub uninterp spec fn val_of(ty: ValType) -> ValShape;

/// The shape of an operator, as far as constant expressions are concerned.
pub uninterp spec fn const_of(op: Operator) -> ConstShape;

/// The operators that the bytes of a constant expression decode to, or
/// `None` where they do not decode to the end.
pub uninterp spec fn decoded(expr: ConstExpr) -> Option<Seq<Operator>>;

/// What a data segment of the decoder holds: the memory index and the
/// offset expression where it is active, and its bytes.
pub uninterp spec fn segment_of(data: Data) -> (Option<(u32, ConstExpr)>, Seq<u8>);

/// A heap type taken apart one level: the abstract heap type inside is
/// still the decoder's own value.
#[derive(Clone, Copy, Debug)]
pub enum HeapParts {
    Abstract { shared: bool, ty: AbstractHeapType },
    Module(u32),
    RecGroup(u32),
}

impl HeapParts {
    /// The shape of the heap type that has these parts.
    pub open spec fn shape(self) -> HeapShape {
        match self {
            HeapParts::Abstract { shared, ty } => HeapShape::Abstract {
                shared,
                ty: abs_heap_of(ty),
            },
            HeapParts::Module(i) => HeapShape::Module(i),
            HeapParts::RecGroup(i) => HeapShape::RecGroup(i),
        }
    }
}

/// A value type taken apart one level: the reference type inside is still
/// the decoder's own value.
#[derive(Clone, Copy, Debug)]
pub enum ValParts {
    I32,
    I64,
    F32,
    F64,
    V128,
    Ref(RefType),
}

impl ValParts {
    /// The shape of the value type that has these parts.
    pub open spec fn shape(self) -> ValShape {
        match self {
            ValParts::I32 => ValShape::I32,
            ValParts::I64 => ValShape::I64,
            ValParts::F32 => ValShape::F32,
            ValParts::F64 => ValShape::F64,
            ValParts::V128 => ValShape::V128,
            ValParts::Ref(r) => ValShape::Ref(ref_of(r)),
        }
    }
}

/// Tells the variants of `wasmparser::AbstractHeapType` apart.
///
/// Trusted: the result is the variant of [`AbsHeap`] with the same name,
/// `NoneHeap` for `None`.
#[verifier::external_body]
pub(crate) fn abs_heap(ty: AbstractHeapType) -> (kind: AbsHeap)
    ensures
        kind == abs_heap_of(ty),
{
    match ty {
        AbstractHeapType::Func => AbsHeap::Func,
        AbstractHeapType::Extern => AbsHeap::Extern,
        AbstractHeapType::Any => AbsHeap::Any,
        AbstractHeapType::None => AbsHeap::NoneHeap,
        AbstractHeapType::NoExtern => AbsHeap::NoExtern,
        AbstractHeapType::NoFunc => AbsHeap::NoFunc,
        AbstractHeapType::Eq => AbsHeap::Eq,
        AbstractHeapType::Struct => AbsHeap::Struct,
        AbstractHeapType::Array => AbsHeap::Array,
        AbstractHeapType::I31 => AbsHeap::I31,
        AbstractHeapType::Exn => AbsHeap::Exn,
        AbstractHeapType::NoExn => AbsHeap::NoExn,
    }
}

/// Makes the variant of `wasmparser::AbstractHeapType` of a given kind.
///
/// Trusted: the result is the variant with the same name as `kind`, `None`
/// for `NoneHeap`.
#[verifier::external_body]
pub(crate) fn abstract_heap_type(kind: AbsHeap) -> (ty: AbstractHeapType)
    ensures
        abs_heap_of(ty) == kind,
{
    match kind {
        AbsHeap::Func => AbstractHeapType::Func,
        AbsHeap::Extern => AbstractHeapType::Extern,
        AbsHeap::Any => AbstractHeapType::Any,
        AbsHeap::NoneHeap => AbstractHeapType::None,
        AbsHeap::NoExtern => AbstractHeapType::NoExtern,
        AbsHeap::NoFunc => AbstractHeapType::NoFunc,
        AbsHeap::Eq => AbstractHeapType::Eq,
        AbsHeap::Struct => AbstractHeapType::Struct,
        AbsHeap::Array => AbstractHeapType::Array,
        AbsHeap::I31 => AbstractHeapType::I31,
        AbsHeap::Exn => AbstractHeapType::Exn,
        AbsHeap::NoExn => AbstractHeapType::NoExn,
    }
}

/// Takes a `wasmparser::HeapType` apart.
///
/// Trusted: the parts are the fields of the variant `Abstract`, or the index
/// of a `Concrete` type with the variant of `UnpackedIndex` that holds it.
/// The result is `None` for a concrete type that is given by a validator's
/// identifier.
#[verifier::external_body]
pub(crate) fn heap_parts(heap: HeapType) -> (parts: Option<HeapParts>)
    ensures
        match parts {
            Some(p) => heap_of(heap) == p.shape(),
            None => heap_of(heap) == HeapShape::Id,
        },
{
    match heap {
        HeapType::Abstract { shared, ty } => Some(HeapParts::Abstract { shared, ty }),
        HeapType::Concrete(UnpackedIndex::Module(i)) => Some(HeapParts::Module(i)),
        HeapType::Concrete(UnpackedIndex::RecGroup(i)) => Some(HeapParts::RecGroup(i)),
        HeapType::Concrete(UnpackedIndex::Id(_)) => None,
    }
}

/// Makes a `wasmparser::HeapType` from its parts.
///
/// Trusted: the result is the variant `Abstract` with the given fields, or
/// the variant `Concrete` with the given index in the variant of
/// `UnpackedIndex` of the same name.
#[verifier::external_body]
pub(crate) fn heap_type(parts: HeapParts) -> (heap: HeapType)
    ensures
        heap_of(heap) == parts.shape(),
{
    match parts {
        HeapParts::Abstract { shared, ty } => HeapType::Abstract { shared, ty },
        HeapParts::Module(i) => HeapType::Concrete(UnpackedIndex::Module(i)),
        HeapParts::RecGroup(i) => HeapType::Concrete(UnpackedIndex::RecGroup(i)),
    }
}

/// `RefType::heap_type`: the heap type that a reference type refers to.
///
/// Trusted: unpacking gives the heap type that the reference type was
/// packed from.
pub assume_specification[ RefType::heap_type ](ty: &RefType) -> (heap: HeapType)
    ensures
        heap_of(heap) == ref_of(*ty).heap,
;

/// `RefType::is_nullable`: whether a reference type admits null.
pub assume_specification[ RefType::is_nullable ](ty: &RefType) -> (nullable: bool)
    ensures
        nullable == ref_of(*ty).nullable,
;

/// `RefType::new`: packs a nullability and a heap type into a reference
/// type.
///
/// Trusted: the result holds what it was given. For a heap type that is
/// abstract, or concrete with a module or recursion-group index, the call
/// succeeds exactly where the index is below 2^20, which is what fits in
/// the packed form.
pub assume_specification[ RefType::new ](nullable: bool, heap_type: HeapType) -> (ty: Option<
    RefType,
>)
    ensures
        ty matches Some(t) ==> ref_of(t) == (RefShape { nullable, heap: heap_of(heap_type) }),
        heap_of(heap_type) != HeapShape::Id ==> (ty is Some <==> heap_of(heap_type).fits()),
;

/// Takes a `wasmparser::ValType` apart.
///
/// Trusted: the result is the variant of the same name, with the reference
/// type of the variant `Ref` handed on as it is.
#[verifier::external_body]
pub(crate) fn val_parts(ty: ValType) -> (parts: ValParts)
    ensures
        parts.shape() == val_of(ty),
{
    match ty {
        ValType::I32 => ValParts::I32,
        ValType::I64 => ValParts::I64,
        ValType::F32 => ValParts::F32,
        ValType::F64 => ValParts::F64,
        ValType::V128 => ValParts::V128,
        ValType::Ref(r) => ValParts::Ref(r),
    }
}

/// Makes a `wasmparser::ValType` from its parts.
///
/// Trusted: the result is the variant of the same name, with the given
/// reference type in the variant `Ref`.
#[verifier::external_body]
pub(crate) fn val_type(parts: ValParts) -> (ty: ValType)
    ensures
        val_of(ty) == parts.shape(),
{
    match parts {
        ValParts::I32 => ValType::I32,
        ValParts::I64 => ValType::I64,
        ValParts::F32 => ValType::F32,
        ValParts::F64 => ValType::F64,
        ValParts::V128 => ValType::V128,
        ValParts::Ref(r) => ValType::Ref(r),
    }
}

/// The number whose little-endian bytes are `bytes`.
pub open spec fn le_value(bytes: Seq<u8>) -> nat
    decreases bytes.len(),
{
    if bytes.len() == 0 {
        0
    } else {
        bytes[0] as nat + 256 * le_value(bytes.drop_first())
    }
}

/// An operator of a constant expression taken apart one level: the heap
/// type of `ref.null` is still the decoder's own value, and a vector
/// constant is given by its sixteen bytes.
#[derive(Clone, Copy, Debug)]
pub enum ConstParts {
    I32Const(i32),
    I64Const(i64),
    F32Const(u32),
    F64Const(u64),
    V128Const([u8; 16]),
    GlobalGet(u32),
    RefNull(HeapType),
    RefFunc(u32),
    End,
    Other,
}

impl ConstParts {
    /// The shape of the operator that has these parts.
    pub open spec fn shape(self) -> ConstShape {
        match self {
            ConstParts::I32Const(v) => ConstShape::I32Const(v),
            ConstParts::I64Const(v) => ConstShape::I64Const(v),
            ConstParts::F32Const(v) => ConstShape::F32Const(v),
            ConstParts::F64Const(v) => ConstShape::F64Const(v),
            ConstParts::V128Const(bytes) => ConstShape::V128Const(le_value(bytes@) as u128),
            ConstParts::GlobalGet(i) => ConstShape::GlobalGet(i),
            ConstParts::RefNull(heap) => ConstShape::RefNull(heap_of(heap)),
            ConstParts::RefFunc(i) => ConstShape::RefFunc(i),
            ConstParts::End => ConstShape::End,
            ConstParts::Other => ConstShape::Other,
        }
    }
}

/// Takes an operator apart, as far as constant expressions are concerned.
///
/// Trusted: for the eight constant operators and `end` the result is the
/// variant of the same name with the operator's immediate; a
/// floating-point immediate is given by its bits, a vector immediate by
/// its bytes. Every other operator gives `Other`.
#[verifier::external_body]
pub(crate) fn const_parts(op: &Operator) -> (parts: ConstParts)
    ensures
        parts.shape() == const_of(*op),
{
    match op {
        Operator::I32Const { value } => ConstParts::I32Const(*value),
        Operator::I64Const { value } => ConstParts::I64Const(*value),
        Operator::F32Const { value } => ConstParts::F32Const(value.bits()),
        Operator::F64Const { value } => ConstParts::F64Const(value.bits()),
        Operator::V128Const { value } => ConstParts::V128Const(*value.bytes()),
        Operator::GlobalGet { global_index } => ConstParts::GlobalGet(*global_index),
        Operator::RefNull { hty } => ConstParts::RefNull(*hty),
        Operator::RefFunc { function_index } => ConstParts::RefFunc(*function_index),
        Operator::End => ConstParts::End,
        _ => ConstParts::Other,
    }
}

/// Decodes the bytes of a constant expression into operators, with the
/// iterator of `ConstExpr::get_operators_reader`.
///
/// Trusted: the result depends on the expression alone, which is its bytes
/// and the features it is read with. It is `None` where the decoder reports
/// an error before the bytes are used up.
#[verifier::external_body]
pub(crate) fn decode_ops<'a>(expr: &ConstExpr<'a>) -> (ops: Option<Vec<Operator<'a>>>)
    ensures
        match ops {
            Some(v) => decoded(*expr) == Some(v@),
            None => decoded(*expr) is None,
        },
{
    expr.get_operators_reader().into_iter().collect::<Result<Vec<_>, _>>().ok()
}

/// `Clone` for `wasmparser::ConstExpr`, which the crate derives.
///
/// Trusted: the copy reads the same bytes from the same place.
pub assume_specification<'a>[ <ConstExpr<'a> as Clone>::clone ](expr: &ConstExpr<'a>) -> (r:
    ConstExpr<'a>)
    ensures
        r == *expr,
;

/// Takes a data segment of the decoder apart.
///
/// Trusted: the result holds the fields `memory_index` and `offset_expr` of
/// an active segment, `None` for a passive one, and the field `data`.
#[verifier::external_body]
pub(crate) fn segment_parts<'a>(data: Data<'a>) -> (parts: (
    Option<(u32, ConstExpr<'a>)>,
    &'a [u8],
))
    ensures
        parts.0 == segment_of(data).0,
        parts.1@ == segment_of(data).1,
{
    match data.kind {
        DataKind::Passive => (None, data.data),
        DataKind::Active { memory_index, offset_expr } => (
            Some((memory_index, offset_expr)),
            data.data,
        ),
    }
}

/// The shape of a heap type of the decoder.
pub fn heap_shape(heap: HeapType) -> (shape: HeapShape)
    ensures
        shape == heap_of(heap),
{
    match heap_parts(heap) {
        Some(HeapParts::Abstract { shared, ty }) => HeapShape::Abstract {
            shared,
            ty: abs_heap(ty),
        },
        Some(HeapParts::Module(i)) => HeapShape::Module(i),
        Some(HeapParts::RecGroup(i)) => HeapShape::RecGroup(i),
        None => HeapShape::Id,
    }
}

/// The shape of a reference type of the decoder.
pub fn ref_shape(ty: RefType) -> (shape: RefShape)
    ensures
        shape == ref_of(ty),
{
    RefShape { nullable: ty.is_nullable(), heap: heap_shape(ty.heap_type()) }
}

/// The shape of a value type of the decoder.
pub fn val_shape(ty: ValType) -> (shape: ValShape)
    ensures
        shape == val_of(ty),
{
    match val_parts(ty) {
        ValParts::I32 => ValShape::I32,
        ValParts::I64 => ValShape::I64,
        ValParts::F32 => ValShape::F32,
        ValParts::F64 => ValShape::F64,
        ValParts::V128 => ValShape::V128,
        ValParts::Ref(r) => ValShape::Ref(ref_shape(r)),
    }
}

/// The heap type of the decoder with the given shape. There is none for a
/// type that is given by a validator's identifier.
pub fn heap_type_of_shape(shape: HeapShape) -> (heap: Option<HeapType>)
    ensures
        match heap {
            Some(h) => heap_of(h) == shape && shape != HeapShape::Id,
            None => shape == HeapShape::Id,
        },
{
    match shape {
        HeapShape::Abstract { shared, ty } => Some(
            heap_type(HeapParts::Abstract { shared, ty: abstract_heap_type(ty) }),
        ),
        HeapShape::Module(i) => Some(heap_type(HeapParts::Module(i))),
        HeapShape::RecGroup(i) => Some(heap_type(HeapParts::RecGroup(i))),
        HeapShape::Id => None,
    }
}

/// The reference type of the decoder with the given shape. There is none
/// where the heap type does not fit the packed form: an index of 2^20 or
/// more, or a validator's identifier.
pub fn ref_type_of_shape(shape: RefShape) -> (ty: Option<RefType>)
    ensures
        match ty {
            Some(t) => ref_of(t) == shape && shape.heap.fits(),
            None => !shape.heap.fits(),
        },
{
    match heap_type_of_shape(shape.heap) {
        Some(heap) => RefType::new(shape.nullable, heap),
        None => None,
    }
}

/// The value type of the decoder with the given shape. There is none for a
/// reference type whose heap type does not fit the packed form.
pub fn val_type_of_shape(shape: ValShape) -> (ty: Option<ValType>)
    ensures
        match ty {
            Some(t) => val_of(t) == shape,
            None => shape matches ValShape::Ref(r) && !r.heap.fits(),
        },
        ty is Some <==> (shape matches ValShape::Ref(r) ==> r.heap.fits()),
{
    match shape {
        ValShape::I32 => Some(val_type(ValParts::I32)),
        ValShape::I64 => Some(val_type(ValParts::I64)),
        ValShape::F32 => Some(val_type(ValParts::F32)),
        ValShape::F64 => Some(val_type(ValParts::F64)),
        ValShape::V128 => Some(val_type(ValParts::V128)),
        ValShape::Ref(r) => match ref_type_of_shape(r) {
            Some(t) => Some(val_type(ValParts::Ref(t))),
            None => None,
        },
    }
}

} // verus!
