//! Constant expressions: the initial value of a global, the offset of a
//! segment.

use vstd::prelude::*;
use wasmparser::{ConstExpr, Data, Operator};
use crate::error::Error;
use crate::ir::encoder::{enc_const_of, heap_type_of_shape, EncConstShape, EncHeapShape};
use crate::ir::id::{FunctionID, GlobalID};
use crate::ir::parser::{
    const_of, const_parts, decode_ops, decoded, heap_shape, le_value, ref_type_of_shape,
    segment_of, segment_parts, AbsHeap, ConstParts, ConstShape, HeapShape, RefShape,
};

verus! {

/// A constant value.
///
/// A floating-point constant is held as the bits of its IEEE 754 encoding.
#[derive(Debug, Clone, Copy, PartialEq, Eq, Structural)]
pub enum Value {
    /// A constant 32-bit integer.
    I32(i32),
    /// A constant 64-bit integer.
    I64(i64),
    /// The bits of a constant 32-bit float.
    F32(u32),
    /// The bits of a constant 64-bit float.
    F64(u64),
    /// A constant 128-bit vector.
    V128(u128),
}

/// A constant expression, as used for the initial value of a global and for
/// the offset of a data or element segment.
#[derive(Debug, Clone, Copy, PartialEq, Eq, Structural)]
pub enum InitExpr {
    /// An immediate constant value.
    Value(Value),
    /// The value of the given global.
    Global(GlobalID),
    /// A null reference of the given type.
    RefNull(RefShape),
    /// A reference to the given function.
    RefFunc(FunctionID),
}

/// 256 to the power of `n`.
pub open spec fn byte_limit(n: nat) -> nat
    decreases n,
{
    if n == 0 {
        1
    } else {
        256 * byte_limit((n - 1) as nat)
    }
}

/// The little-endian value of `n` bytes is below 256 to the power of `n`.
pub proof fn lemma_le_value_bound(bytes: Seq<u8>)
    ensures
        le_value(bytes) < byte_limit(bytes.len()),
    decreases bytes.len(),
{
    if bytes.len() > 0 {
        lemma_le_value_bound(bytes.drop_first());
    }
}

/// The little-endian value of a sequence extended by one byte at the front.
proof fn lemma_le_value_step(bytes: Seq<u8>, i: int)
    requires
        0 <= i < bytes.len(),
    ensures
        le_value(bytes.subrange(i, bytes.len() as int)) == bytes[i] + 256 * le_value(
            bytes.subrange(i + 1, bytes.len() as int),
        ),
{
    let tail = bytes.subrange(i, bytes.len() as int);
    assert(tail.drop_first() =~= bytes.subrange(i + 1, bytes.len() as int));
}

/// The number whose little-endian bytes are the sixteen given ones.
pub fn v128_to_u128(bytes: &[u8; 16]) -> (value: u128)
    ensures
        value == le_value(bytes@),
{
    let mut value: u128 = 0;
    let mut i: usize = 16;
    while i > 0
        invariant
            i <= 16,
            bytes@.len() == 16,
            value == le_value(bytes@.subrange(i as int, 16)),
        decreases i,
    {
        proof {
            reveal_with_fuel(byte_limit, 17);
            lemma_le_value_bound(bytes@.subrange(i as int, 16));
            lemma_le_value_step(bytes@, i - 1);
        }
        i = i - 1;
        value = value * 256 + bytes[i] as u128;
    }
    proof {
        assert(bytes@.subrange(0, 16) =~= bytes@);
    }
    value
}

/// The shape of an operator, as far as constant expressions are concerned.
pub fn const_shape(op: &Operator) -> (shape: ConstShape)
    ensures
        shape == const_of(*op),
{
    match const_parts(op) {
        ConstParts::I32Const(v) => ConstShape::I32Const(v),
        ConstParts::I64Const(v) => ConstShape::I64Const(v),
        ConstParts::F32Const(v) => ConstShape::F32Const(v),
        ConstParts::F64Const(v) => ConstShape::F64Const(v),
        ConstParts::V128Const(bytes) => ConstShape::V128Const(v128_to_u128(&bytes)),
        ConstParts::GlobalGet(i) => ConstShape::GlobalGet(i),
        ConstParts::RefNull(heap) => ConstShape::RefNull(heap_shape(heap)),
        ConstParts::RefFunc(i) => ConstShape::RefFunc(i),
        ConstParts::End => ConstShape::End,
        ConstParts::Other => ConstShape::Other,
    }
}

/// The shapes of a sequence of operators.
pub open spec fn const_shapes(ops: Seq<Operator>) -> Seq<ConstShape> {
    Seq::new(ops.len(), |i: int| const_of(ops[i]))
}

/// The signed number with the same bits as `v`.
pub fn to_signed(v: u128) -> (r: i128)
    ensures
        r == as_signed(v),
{
    if v <= 0x7fff_ffff_ffff_ffff_ffff_ffff_ffff_ffff {
        v as i128
    } else {
        let low: u128 = v - 0x8000_0000_0000_0000_0000_0000_0000_0000;
        (low as i128) + i128::MIN
    }
}

/// The 128-bit vector `v` as the signed number with the same bits.
pub open spec fn as_signed(v: u128) -> i128 {
    if v <= i128::MAX {
        v as i128
    } else {
        (v - 0x1_0000_0000_0000_0000_0000_0000_0000_0000) as i128
    }
}

impl InitExpr {
    /// The constant expression that a single constant operator stands for.
    ///
    /// A null reference is nullable. There is none for `end` and for an
    /// operator that is not constant, which gives `Error::InvalidConstExpr`,
    /// and none for a null reference to a heap type that a packed reference
    /// type cannot hold, which gives `Error::Unsupported`.
    pub open spec fn spec_of_const(op: ConstShape) -> Result<InitExpr, Error> {
        match op {
            ConstShape::I32Const(v) => Ok(InitExpr::Value(Value::I32(v))),
            ConstShape::I64Const(v) => Ok(InitExpr::Value(Value::I64(v))),
            ConstShape::F32Const(v) => Ok(InitExpr::Value(Value::F32(v))),
            ConstShape::F64Const(v) => Ok(InitExpr::Value(Value::F64(v))),
            ConstShape::V128Const(v) => Ok(InitExpr::Value(Value::V128(v))),
            ConstShape::GlobalGet(i) => Ok(InitExpr::Global(GlobalID(i))),
            ConstShape::RefNull(heap) => if heap.fits() {
                Ok(InitExpr::RefNull(RefShape { nullable: true, heap }))
            } else {
                Err(Error::Unsupported)
            },
            ConstShape::RefFunc(i) => Ok(InitExpr::RefFunc(FunctionID(i))),
            ConstShape::End => Err(Error::InvalidConstExpr),
            ConstShape::Other => Err(Error::InvalidConstExpr),
        }
    }

    /// The constant expression that a sequence of operators stands for: one
    /// constant operator followed by `end`, and nothing else. Any other
    /// sequence gives `Error::InvalidConstExpr`.
    pub open spec fn spec_of_ops(ops: Seq<ConstShape>) -> Result<InitExpr, Error> {
        if ops.len() == 2 && ops[1] == ConstShape::End {
            InitExpr::spec_of_const(ops[0])
        } else {
            Err(Error::InvalidConstExpr)
        }
    }

    /// The constant expression that the bytes of a constant expression
    /// stand for, given what they decode to.
    pub open spec fn spec_eval(ops: Option<Seq<Operator>>) -> Result<InitExpr, Error> {
        match ops {
            Some(s) => InitExpr::spec_of_ops(const_shapes(s)),
            None => Err(Error::InvalidConstExpr),
        }
    }

    /// The instruction of the encoder's constant expression for this one.
    ///
    /// A vector constant is given as the signed number with the same bits.
    /// A null reference is encoded for the abstract heap types `func` and
    /// `extern` only, and as a reference that is not shared; any other gives
    /// `Error::Unsupported`. A floating-point constant gives
    /// `Error::FloatConstant`.
    pub open spec fn spec_enc_shape(self) -> Result<EncConstShape, Error> {
        match self {
            InitExpr::Value(Value::I32(v)) => Ok(EncConstShape::I32Const(v)),
            InitExpr::Value(Value::I64(v)) => Ok(EncConstShape::I64Const(v)),
            InitExpr::Value(Value::F32(_)) => Err(Error::FloatConstant),
            InitExpr::Value(Value::F64(_)) => Err(Error::FloatConstant),
            InitExpr::Value(Value::V128(v)) => Ok(EncConstShape::V128Const(as_signed(v))),
            InitExpr::Global(g) => Ok(EncConstShape::GlobalGet(g.0)),
            InitExpr::RefNull(ty) => match ty.heap {
                HeapShape::Abstract { shared, ty: AbsHeap::Func } => Ok(
                    EncConstShape::RefNull(
                        EncHeapShape::Abstract { shared: false, ty: AbsHeap::Func },
                    ),
                ),
                HeapShape::Abstract { shared, ty: AbsHeap::Extern } => Ok(
                    EncConstShape::RefNull(
                        EncHeapShape::Abstract { shared: false, ty: AbsHeap::Extern },
                    ),
                ),
                _ => Err(Error::Unsupported),
            },
            InitExpr::RefFunc(f) => Ok(EncConstShape::RefFunc(f.0)),
        }
    }

    /// The constant expression that a single constant operator stands for.
    pub fn of_const(op: ConstShape) -> (r: Result<InitExpr, Error>)
        ensures
            r == InitExpr::spec_of_const(op),
    {
        match op {
            ConstShape::I32Const(v) => Ok(InitExpr::Value(Value::I32(v))),
            ConstShape::I64Const(v) => Ok(InitExpr::Value(Value::I64(v))),
            ConstShape::F32Const(v) => Ok(InitExpr::Value(Value::F32(v))),
            ConstShape::F64Const(v) => Ok(InitExpr::Value(Value::F64(v))),
            ConstShape::V128Const(v) => Ok(InitExpr::Value(Value::V128(v))),
            ConstShape::GlobalGet(i) => Ok(InitExpr::Global(GlobalID(i))),
            ConstShape::RefNull(heap) => {
                let shape = RefShape { nullable: true, heap };
                match ref_type_of_shape(shape) {
                    Some(_) => Ok(InitExpr::RefNull(shape)),
                    None => Err(Error::Unsupported),
                }
            },
            ConstShape::RefFunc(i) => Ok(InitExpr::RefFunc(FunctionID(i))),
            ConstShape::End => Err(Error::InvalidConstExpr),
            ConstShape::Other => Err(Error::InvalidConstExpr),
        }
    }

    /// The constant expression that a sequence of decoded operators stands
    /// for: one constant operator followed by `end`, and nothing else.
    ///
    /// Fails with `Error::InvalidConstExpr` for any other sequence, and with
    /// `Error::Unsupported` for a null reference to a heap type that a
    /// packed reference type cannot hold.
    pub fn from_ops(ops: &Vec<Operator>) -> (r: Result<InitExpr, Error>)
        ensures
            r == InitExpr::spec_of_ops(const_shapes(ops@)),
    {
        if ops.len() != 2 {
            return Err(Error::InvalidConstExpr);
        }
        match const_shape(&ops[1]) {
            ConstShape::End => InitExpr::of_const(const_shape(&ops[0])),
            _ => Err(Error::InvalidConstExpr),
        }
    }

    /// Evaluates the bytes of a constant expression.
    ///
    /// The bytes must decode to one constant operator followed by `end`;
    /// else the result is `Error::InvalidConstExpr`. A null reference to a
    /// heap type that a packed reference type cannot hold gives
    /// `Error::Unsupported`.
    pub fn eval(init: &ConstExpr) -> (r: Result<InitExpr, Error>)
        ensures
            r == InitExpr::spec_eval(decoded(*init)),
    {
        match decode_ops(init) {
            Some(ops) => InitExpr::from_ops(&ops),
            None => Err(Error::InvalidConstExpr),
        }
    }

    /// The instruction of the encoder's constant expression for this one.
    #[verifier::when_used_as_spec(spec_enc_shape)]
    pub fn enc_shape(self) -> (r: Result<EncConstShape, Error>)
        ensures
            r == self.spec_enc_shape(),
    {
        match self {
            InitExpr::Value(Value::I32(v)) => Ok(EncConstShape::I32Const(v)),
            InitExpr::Value(Value::I64(v)) => Ok(EncConstShape::I64Const(v)),
            InitExpr::Value(Value::F32(_)) => Err(Error::FloatConstant),
            InitExpr::Value(Value::F64(_)) => Err(Error::FloatConstant),
            InitExpr::Value(Value::V128(v)) => Ok(EncConstShape::V128Const(to_signed(v))),
            InitExpr::Global(g) => Ok(EncConstShape::GlobalGet(g.0)),
            InitExpr::RefNull(ty) => match ty.heap {
                HeapShape::Abstract { shared: _, ty: AbsHeap::Func } => Ok(
                    EncConstShape::RefNull(
                        EncHeapShape::Abstract { shared: false, ty: AbsHeap::Func },
                    ),
                ),
                HeapShape::Abstract { shared: _, ty: AbsHeap::Extern } => Ok(
                    EncConstShape::RefNull(
                        EncHeapShape::Abstract { shared: false, ty: AbsHeap::Extern },
                    ),
                ),
                _ => Err(Error::Unsupported),
            },
            InitExpr::RefFunc(f) => Ok(EncConstShape::RefFunc(f.0)),
        }
    }

    /// The constant expression of the encoder for this one.
    ///
    /// Fails with `Error::FloatConstant` for a floating-point constant,
    /// which the caller has to build from its bits, and with
    /// `Error::Unsupported` for a null reference to anything but the
    /// abstract heap types `func` and `extern`.
    pub fn to_wasmencoder_type(self) -> (r: Result<wasm_encoder::ConstExpr, Error>)
        ensures
            match r {
                Ok(expr) => self.spec_enc_shape() == Ok::<EncConstShape, Error>(
                    enc_const_of(expr),
                ),
                Err(e) => self.spec_enc_shape() == Err::<EncConstShape, Error>(e),
            },
    {
        match self.enc_shape() {
            Ok(EncConstShape::I32Const(v)) => Ok(wasm_encoder::ConstExpr::i32_const(v)),
            Ok(EncConstShape::I64Const(v)) => Ok(wasm_encoder::ConstExpr::i64_const(v)),
            Ok(EncConstShape::V128Const(v)) => Ok(wasm_encoder::ConstExpr::v128_const(v)),
            Ok(EncConstShape::GlobalGet(i)) => Ok(wasm_encoder::ConstExpr::global_get(i)),
            Ok(EncConstShape::RefNull(heap)) => Ok(
                wasm_encoder::ConstExpr::ref_null(heap_type_of_shape(heap)),
            ),
            Ok(EncConstShape::RefFunc(i)) => Ok(wasm_encoder::ConstExpr::ref_func(i)),
            Err(e) => Err(e),
        }
    }
}

/// The operator that the decoder reads back from an instruction that the
/// encoder wrote.
pub open spec fn read_back(instr: EncConstShape) -> ConstShape {
    match instr {
        EncConstShape::I32Const(v) => ConstShape::I32Const(v),
        EncConstShape::I64Const(v) => ConstShape::I64Const(v),
        EncConstShape::V128Const(v) => ConstShape::V128Const(v as u128),
        EncConstShape::GlobalGet(i) => ConstShape::GlobalGet(i),
        EncConstShape::RefNull(heap) => ConstShape::RefNull(
            match heap {
                EncHeapShape::Abstract { shared, ty } => HeapShape::Abstract { shared, ty },
                EncHeapShape::Concrete(i) => HeapShape::Module(i),
            },
        ),
        EncConstShape::RefFunc(i) => ConstShape::RefFunc(i),
    }
}

/// A constant expression that can be encoded comes back when its
/// instruction is read back and evaluated, provided that a null reference
/// is nullable and not shared, as evaluation makes it.
pub proof fn lemma_init_expr_round_trip(expr: InitExpr)
    requires
        expr.spec_enc_shape() is Ok,
        expr matches InitExpr::RefNull(ty) ==> ty.nullable && ty.heap matches HeapShape::Abstract {
            shared: false,
            ..
        },
    ensures
        InitExpr::spec_of_const(read_back(expr.spec_enc_shape().unwrap())) == Ok::<
            InitExpr,
            Error,
        >(expr),
{
    match expr {
        InitExpr::Value(Value::V128(v)) => {
            assert(as_signed(v) as u128 == v) by (bit_vector)
                requires
                    as_signed(v) == if v <= 0x7fff_ffff_ffff_ffff_ffff_ffff_ffff_ffffu128 {
                        v as i128
                    } else {
                        (v - 0x1_0000_0000_0000_0000_0000_0000_0000_0000) as i128
                    },
            ;
        },
        _ => {},
    }
}

/// The kind of a data segment.
#[derive(Debug, Clone, Copy, PartialEq, Eq, Structural)]
pub enum DataSegmentKind {
    /// The segment is passive.
    Passive,
    /// The segment is active: it is copied into a memory when the module is
    /// instantiated.
    Active {
        /// The index of the memory.
        memory_index: u32,
        /// The offset in the memory at which the segment is placed.
        offset_expr: InitExpr,
    },
}

/// A data segment of a module.
#[derive(Debug, Clone)]
pub struct DataSegment {
    /// The kind of the segment.
    pub kind: DataSegmentKind,
    /// The bytes of the segment.
    pub data: Vec<u8>,
}

impl DataSegmentKind {
    /// The kind of a segment, given the memory index and the evaluated
    /// offset of an active one.
    pub open spec fn spec_of_parts(active: Option<(u32, Result<InitExpr, Error>)>) -> Result<
        DataSegmentKind,
        Error,
    > {
        match active {
            None => Ok(DataSegmentKind::Passive),
            Some((memory_index, Ok(offset_expr))) => Ok(
                DataSegmentKind::Active { memory_index, offset_expr },
            ),
            Some((_, Err(e))) => Err(e),
        }
    }

    /// The kind of a segment of the decoder, given the memory index and the
    /// offset expression of an active one. The offset is evaluated; where
    /// that fails, its error is returned.
    pub fn from_wasmparser(active: Option<(u32, ConstExpr)>) -> (r: Result<DataSegmentKind, Error>)
        ensures
            r == DataSegmentKind::spec_of_parts(
                match active {
                    Some(p) => Some((p.0, InitExpr::spec_eval(decoded(p.1)))),
                    None => None,
                },
            ),
    {
        match active {
            None => Ok(DataSegmentKind::Passive),
            Some((memory_index, offset_expr)) => match InitExpr::eval(&offset_expr) {
                Ok(offset_expr) => Ok(DataSegmentKind::Active { memory_index, offset_expr }),
                Err(e) => Err(e),
            },
        }
    }
}

impl DataSegment {
    /// The data segment that a data segment of the decoder stands for: its
    /// kind, with the offset of an active segment evaluated, and a copy of
    /// its bytes. Where the offset cannot be evaluated, its error is
    /// returned.
    pub fn from_wasmparser(data: Data) -> (r: Result<DataSegment, Error>)
        ensures
            match r {
                Ok(segment) => segment.data@ == segment_of(data).1 && Ok::<DataSegmentKind, Error>(
                    segment.kind,
                ) == DataSegmentKind::spec_of_parts(
                    match segment_of(data).0 {
                        Some(p) => Some((p.0, InitExpr::spec_eval(decoded(p.1)))),
                        None => None,
                    },
                ),
                Err(e) => Err::<DataSegmentKind, Error>(e) == DataSegmentKind::spec_of_parts(
                    match segment_of(data).0 {
                        Some(p) => Some((p.0, InitExpr::spec_eval(decoded(p.1)))),
                        None => None,
                    },
                ),
            },
    {
        let (active, bytes) = segment_parts(data);
        match DataSegmentKind::from_wasmparser(active) {
            Ok(kind) => Ok(DataSegment { kind, data: vstd::slice::slice_to_vec(bytes) }),
            Err(e) => Err(e),
        }
    }
}

} // verus!
