use orca_wasm::error::Error;
use orca_wasm::ir::element::{ElementItems, ElementKind};
use orca_wasm::ir::encoder;
use orca_wasm::ir::encoder::{EncConstShape, EncHeapShape, EncValShape};
use orca_wasm::ir::id::{FunctionID, GlobalID, ModuleID, TypeID};
use orca_wasm::ir::init_expr::{
    const_shape, to_signed, v128_to_u128, DataSegment, DataSegmentKind, InitExpr, Value,
};
use orca_wasm::ir::parser::{
    heap_shape, ref_shape, ref_type_of_shape, val_shape, val_type_of_shape, AbsHeap, BlockShape,
    ConstShape, HeapShape, RefShape, ValShape,
};
use orca_wasm::ir::types::{valtype_to_wasmencoder_type, BlockType, DataType};
use wasm_encoder::AbstractHeapType as E;
use wasm_encoder::Encode;
use wasmparser::AbstractHeapType as P;
use wasmparser::{BinaryReader, ConstExpr, Operator, RefType, ValType, WasmFeatures};

fn parser_ref(nullable: bool, ty: wasmparser::AbstractHeapType) -> ValType {
    ValType::Ref(RefType::new(nullable, wasmparser::HeapType::Abstract { shared: false, ty }).unwrap())
}

fn parser_concrete(index: wasmparser::UnpackedIndex) -> ValType {
    ValType::Ref(RefType::new(false, wasmparser::HeapType::Concrete(index)).unwrap())
}

fn encoder_ref(nullable: bool, ty: wasm_encoder::AbstractHeapType) -> wasm_encoder::ValType {
    wasm_encoder::ValType::Ref(wasm_encoder::RefType {
        nullable,
        heap_type: wasm_encoder::HeapType::Abstract { shared: false, ty },
    })
}

fn encoder_concrete(index: u32) -> wasm_encoder::ValType {
    wasm_encoder::ValType::Ref(wasm_encoder::RefType {
        nullable: false,
        heap_type: wasm_encoder::HeapType::Concrete(index),
    })
}

/// Every type that has a value type in the decoder, with that value type
/// and the encoder's.
fn table() -> Vec<(DataType, ValType, wasm_encoder::ValType)> {
    vec![
        (DataType::I32, ValType::I32, wasm_encoder::ValType::I32),
        (DataType::I64, ValType::I64, wasm_encoder::ValType::I64),
        (DataType::F32, ValType::F32, wasm_encoder::ValType::F32),
        (DataType::F64, ValType::F64, wasm_encoder::ValType::F64),
        (DataType::V128, ValType::V128, wasm_encoder::ValType::V128),
        (DataType::FuncRef, ValType::FUNCREF, wasm_encoder::ValType::FUNCREF),
        (DataType::ExternRef, ValType::EXTERNREF, wasm_encoder::ValType::EXTERNREF),
        (DataType::Any, parser_ref(false, P::Any), encoder_ref(false, E::Any)),
        (DataType::NoneRef, parser_ref(false, P::None), encoder_ref(false, E::None)),
        (DataType::NoExtern, parser_ref(false, P::NoExtern), encoder_ref(false, E::NoExtern)),
        (DataType::NoFunc, parser_ref(false, P::NoFunc), encoder_ref(false, E::NoFunc)),
        (DataType::Eq, parser_ref(false, P::Eq), encoder_ref(false, E::Eq)),
        (DataType::Struct, parser_ref(false, P::Struct), encoder_ref(false, E::Struct)),
        (DataType::Array, parser_ref(false, P::Array), encoder_ref(false, E::Array)),
        (DataType::I31, parser_ref(false, P::I31), encoder_ref(false, E::I31)),
        (DataType::Exn, parser_ref(false, P::Exn), encoder_ref(false, E::Exn)),
        (DataType::NoExn, parser_ref(false, P::NoExn), encoder_ref(false, E::NoExn)),
        (
            DataType::Module(ModuleID(7)),
            parser_concrete(wasmparser::UnpackedIndex::Module(7)),
            encoder_concrete(7),
        ),
        (
            DataType::RecGroup(9),
            parser_concrete(wasmparser::UnpackedIndex::RecGroup(9)),
            encoder_concrete(9),
        ),
    ]
}

#[test]
fn data_type_maps_to_the_decoders_value_type() {
    for (ty, parser, _) in table() {
        assert_eq!(ty.to_valtype(), Ok(parser));
    }
}

#[test]
fn data_type_maps_from_the_decoders_value_type() {
    for (ty, parser, _) in table() {
        assert_eq!(DataType::from_valtype(parser), Ok(ty));
    }
}

#[test]
fn data_type_round_trips_through_the_decoders_value_type() {
    for (ty, _, _) in table() {
        let there = ty.to_valtype().unwrap();
        assert_eq!(DataType::from_valtype(there), Ok(ty));
        let shape = ty.shape().unwrap();
        assert_eq!(DataType::of_shape(shape), Ok(ty));
        assert_eq!(val_shape(there), shape);
    }
}

#[test]
fn data_type_maps_to_the_encoders_value_type() {
    for (ty, _, encoder) in table() {
        assert_eq!(ty.to_wasmencoder_type(), encoder);
    }
    assert_eq!(DataType::CoreTypeId(12).to_wasmencoder_type(), encoder_concrete(12));
    assert_eq!(
        DataType::Module(ModuleID(0x20_0000)).to_wasmencoder_type(),
        encoder_concrete(0x20_0000)
    );
}

#[test]
fn decoding_ignores_nullability_and_sharing() {
    assert_eq!(DataType::from_valtype(parser_ref(true, P::Any)), Ok(DataType::Any));
    assert_eq!(DataType::from_valtype(parser_ref(false, P::Func)), Ok(DataType::FuncRef));
    let shared = RefType::new(true, wasmparser::HeapType::Abstract { shared: true, ty: P::Eq });
    assert_eq!(DataType::from_valtype(ValType::Ref(shared.unwrap())), Ok(DataType::Eq));
    let nullable_index =
        RefType::new(true, wasmparser::HeapType::Concrete(wasmparser::UnpackedIndex::Module(3)));
    assert_eq!(
        DataType::from_valtype(ValType::Ref(nullable_index.unwrap())),
        Ok(DataType::Module(ModuleID(3)))
    );
}

#[test]
fn unsupported_types_are_reported() {
    assert_eq!(DataType::CoreTypeId(0).to_valtype(), Err(Error::Unsupported));
    assert_eq!(DataType::CoreTypeId(0).shape(), None);
    assert_eq!(DataType::Module(ModuleID(0x10_0000)).to_valtype(), Err(Error::Unsupported));
    assert_eq!(DataType::RecGroup(u32::MAX).to_valtype(), Err(Error::Unsupported));
    assert!(DataType::Module(ModuleID(0xf_ffff)).to_valtype().is_ok());
    assert!(DataType::RecGroup(0xf_ffff).to_valtype().is_ok());
    assert_eq!(
        DataType::of_shape(ValShape::Ref(RefShape { nullable: true, heap: HeapShape::Id })),
        Err(Error::Unsupported)
    );
}

#[test]
fn shapes_say_what_the_decoders_types_hold() {
    let heap = wasmparser::HeapType::Abstract { shared: true, ty: P::I31 };
    assert_eq!(heap_shape(heap), HeapShape::Abstract { shared: true, ty: AbsHeap::I31 });
    let index = wasmparser::HeapType::Concrete(wasmparser::UnpackedIndex::RecGroup(4));
    assert_eq!(heap_shape(index), HeapShape::RecGroup(4));
    assert_eq!(
        ref_shape(RefType::FUNCREF),
        RefShape { nullable: true, heap: HeapShape::Abstract { shared: false, ty: AbsHeap::Func } }
    );
    assert_eq!(
        ref_shape(RefType::new(false, index).unwrap()),
        RefShape { nullable: false, heap: HeapShape::RecGroup(4) }
    );
    assert_eq!(val_shape(ValType::F64), ValShape::F64);
    assert_eq!(val_shape(ValType::I32), ValShape::I32);
    assert_eq!(
        val_shape(parser_ref(false, P::None)),
        ValShape::Ref(RefShape {
            nullable: false,
            heap: HeapShape::Abstract { shared: false, ty: AbsHeap::NoneHeap },
        })
    );
}

#[test]
fn shapes_build_the_decoders_types() {
    let kinds = [
        (AbsHeap::Func, P::Func),
        (AbsHeap::Extern, P::Extern),
        (AbsHeap::Any, P::Any),
        (AbsHeap::NoneHeap, P::None),
        (AbsHeap::NoExtern, P::NoExtern),
        (AbsHeap::NoFunc, P::NoFunc),
        (AbsHeap::Eq, P::Eq),
        (AbsHeap::Struct, P::Struct),
        (AbsHeap::Array, P::Array),
        (AbsHeap::I31, P::I31),
        (AbsHeap::Exn, P::Exn),
        (AbsHeap::NoExn, P::NoExn),
    ];
    for (kind, outside) in kinds {
        for nullable in [false, true] {
            for shared in [false, true] {
                let shape = RefShape { nullable, heap: HeapShape::Abstract { shared, ty: kind } };
                let expected =
                    RefType::new(nullable, wasmparser::HeapType::Abstract { shared, ty: outside })
                        .unwrap();
                assert_eq!(ref_type_of_shape(shape), Some(expected));
                assert_eq!(ref_shape(expected), shape);
                assert_eq!(val_type_of_shape(ValShape::Ref(shape)), Some(ValType::Ref(expected)));
            }
        }
    }
    assert_eq!(val_type_of_shape(ValShape::V128), Some(ValType::V128));
    let too_large = RefShape { nullable: false, heap: HeapShape::Module(0x10_0000) };
    assert_eq!(ref_type_of_shape(too_large), None);
    assert_eq!(val_type_of_shape(ValShape::Ref(too_large)), None);
    let id = RefShape { nullable: false, heap: HeapShape::Id };
    assert_eq!(ref_type_of_shape(id), None);
}

#[test]
fn encoder_shapes_build_the_encoders_types() {
    assert_eq!(
        encoder::heap_type_of_shape(EncHeapShape::Abstract { shared: true, ty: AbsHeap::NoExn }),
        wasm_encoder::HeapType::Abstract {
            shared: true,
            ty: wasm_encoder::AbstractHeapType::NoExn,
        }
    );
    assert_eq!(
        encoder::heap_type_of_shape(EncHeapShape::Concrete(3)),
        wasm_encoder::HeapType::Concrete(3)
    );
    assert_eq!(encoder::val_type_of_shape(EncValShape::F32), wasm_encoder::ValType::F32);
    assert_eq!(
        encoder::val_type_of_shape(EncValShape::Ref {
            nullable: true,
            heap: EncHeapShape::Concrete(8),
        }),
        wasm_encoder::ValType::Ref(wasm_encoder::RefType {
            nullable: true,
            heap_type: wasm_encoder::HeapType::Concrete(8),
        })
    );
    assert_eq!(DataType::Struct.enc_shape(), EncValShape::Ref {
        nullable: false,
        heap: EncHeapShape::Abstract { shared: false, ty: AbsHeap::Struct },
    });
}

#[test]
fn reencoding_keeps_the_type() {
    for (ty, parser, encoder) in table() {
        let r = valtype_to_wasmencoder_type(&parser);
        if let DataType::RecGroup(_) = ty {
            assert_eq!(r, Err(Error::Unsupported));
        } else {
            assert_eq!(r, Ok(encoder));
        }
    }
    let nullable_any = parser_ref(true, wasmparser::AbstractHeapType::Any);
    assert_eq!(
        valtype_to_wasmencoder_type(&nullable_any),
        Ok(encoder_ref(true, wasm_encoder::AbstractHeapType::Any))
    );
}

#[test]
fn block_type_round_trips_through_its_shape() {
    let cases = [
        (BlockType::Empty, BlockShape::Empty),
        (BlockType::FuncType(TypeID(5)), BlockShape::FuncType(5)),
        (BlockType::Type(DataType::I64), BlockShape::Type(ValShape::I64)),
        (
            BlockType::Type(DataType::ExternRef),
            BlockShape::Type(ValShape::Ref(RefShape {
                nullable: true,
                heap: HeapShape::Abstract { shared: false, ty: AbsHeap::Extern },
            })),
        ),
    ];
    for (ty, shape) in cases {
        assert_eq!(ty.shape(), Some(shape));
        assert_eq!(BlockType::of_shape(shape), Ok(ty));
    }
    assert_eq!(BlockType::Type(DataType::CoreTypeId(1)).shape(), None);
    let id = ValShape::Ref(RefShape { nullable: false, heap: HeapShape::Id });
    assert_eq!(BlockType::of_shape(BlockShape::Type(id)), Err(Error::Unsupported));
}

fn expr(bytes: &[u8]) -> ConstExpr<'_> {
    ConstExpr::new(BinaryReader::new(bytes, 0, WasmFeatures::all()))
}

#[test]
fn constant_expressions_are_evaluated() {
    assert_eq!(InitExpr::eval(&expr(&[0x41, 0x05, 0x0b])), Ok(InitExpr::Value(Value::I32(5))));
    assert_eq!(InitExpr::eval(&expr(&[0x41, 0x7f, 0x0b])), Ok(InitExpr::Value(Value::I32(-1))));
    assert_eq!(InitExpr::eval(&expr(&[0x42, 0x2a, 0x0b])), Ok(InitExpr::Value(Value::I64(42))));
    assert_eq!(
        InitExpr::eval(&expr(&[0x43, 0x00, 0x00, 0x80, 0x3f, 0x0b])),
        Ok(InitExpr::Value(Value::F32(1.0f32.to_bits())))
    );
    assert_eq!(
        InitExpr::eval(&expr(&[0x44, 0, 0, 0, 0, 0, 0, 0xf0, 0x3f, 0x0b])),
        Ok(InitExpr::Value(Value::F64(1.0f64.to_bits())))
    );
    assert_eq!(InitExpr::eval(&expr(&[0x23, 0x03, 0x0b])), Ok(InitExpr::Global(GlobalID(3))));
    assert_eq!(InitExpr::eval(&expr(&[0xd2, 0x09, 0x0b])), Ok(InitExpr::RefFunc(FunctionID(9))));
    assert_eq!(
        InitExpr::eval(&expr(&[0xd0, 0x70, 0x0b])),
        Ok(InitExpr::RefNull(RefShape {
            nullable: true,
            heap: HeapShape::Abstract { shared: false, ty: AbsHeap::Func },
        }))
    );
    assert_eq!(
        InitExpr::eval(&expr(&[0xd0, 0x6f, 0x0b])),
        Ok(InitExpr::RefNull(RefShape {
            nullable: true,
            heap: HeapShape::Abstract { shared: false, ty: AbsHeap::Extern },
        }))
    );
    assert_eq!(
        InitExpr::eval(&expr(&[0xd0, 0x02, 0x0b])),
        Ok(InitExpr::RefNull(RefShape { nullable: true, heap: HeapShape::Module(2) }))
    );
}

#[test]
fn vector_constant_is_read_little_endian() {
    let mut bytes = vec![0xfd, 0x0c];
    let lanes: [u8; 16] = [1, 2, 3, 4, 5, 6, 7, 8, 9, 10, 11, 12, 13, 14, 15, 0x80];
    bytes.extend_from_slice(&lanes);
    bytes.push(0x0b);
    let expected = u128::from_le_bytes(lanes);
    assert_eq!(InitExpr::eval(&expr(&bytes)), Ok(InitExpr::Value(Value::V128(expected))));
    assert_eq!(v128_to_u128(&lanes), expected);
    assert_eq!(v128_to_u128(&lanes), 0x800f0e0d0c0b0a090807060504030201);
    assert_eq!(v128_to_u128(&[0; 16]), 0);
    assert_eq!(v128_to_u128(&[0xff; 16]), u128::MAX);
    let mut one = [0u8; 16];
    one[1] = 1;
    assert_eq!(v128_to_u128(&one), 256);
}

#[test]
fn malformed_constant_expressions_are_rejected() {
    // no operator at all
    assert_eq!(InitExpr::eval(&expr(&[])), Err(Error::InvalidConstExpr));
    // `end` alone
    assert_eq!(InitExpr::eval(&expr(&[0x0b])), Err(Error::InvalidConstExpr));
    // constant without `end`
    assert_eq!(InitExpr::eval(&expr(&[0x41, 0x05])), Err(Error::InvalidConstExpr));
    // two constants
    assert_eq!(InitExpr::eval(&expr(&[0x41, 0x05, 0x41, 0x06, 0x0b])), Err(Error::InvalidConstExpr));
    // `nop` is not a constant
    assert_eq!(InitExpr::eval(&expr(&[0x01, 0x0b])), Err(Error::InvalidConstExpr));
    // an operator after `end`
    assert_eq!(InitExpr::eval(&expr(&[0x41, 0x05, 0x0b, 0x01])), Err(Error::InvalidConstExpr));
    // bytes that are no operator after `end`
    assert_eq!(InitExpr::eval(&expr(&[0x41, 0x05, 0x0b, 0xff])), Err(Error::InvalidConstExpr));
    // an immediate that is cut off
    assert_eq!(InitExpr::eval(&expr(&[0x41, 0x80])), Err(Error::InvalidConstExpr));
    // constant followed by another operator instead of `end`
    assert_eq!(InitExpr::eval(&expr(&[0x41, 0x05, 0x01])), Err(Error::InvalidConstExpr));
}

#[test]
fn operators_are_evaluated() {
    let ops = vec![Operator::I32Const { value: 3 }, Operator::End];
    assert_eq!(InitExpr::from_ops(&ops), Ok(InitExpr::Value(Value::I32(3))));
    let ops = vec![Operator::End, Operator::End];
    assert_eq!(InitExpr::from_ops(&ops), Err(Error::InvalidConstExpr));
    let ops = vec![Operator::I32Add, Operator::End];
    assert_eq!(InitExpr::from_ops(&ops), Err(Error::InvalidConstExpr));
    let ops = vec![Operator::I32Const { value: 3 }];
    assert_eq!(InitExpr::from_ops(&ops), Err(Error::InvalidConstExpr));
    let ops = vec![Operator::I32Const { value: 3 }, Operator::I32Const { value: 3 }];
    assert_eq!(InitExpr::from_ops(&ops), Err(Error::InvalidConstExpr));
    let ops = vec![Operator::I32Const { value: 3 }, Operator::End, Operator::End];
    assert_eq!(InitExpr::from_ops(&ops), Err(Error::InvalidConstExpr));
    assert_eq!(InitExpr::from_ops(&vec![]), Err(Error::InvalidConstExpr));

    let index = wasmparser::HeapType::Concrete(wasmparser::UnpackedIndex::Module(0x10_0000));
    let ops = vec![Operator::RefNull { hty: index }, Operator::End];
    assert_eq!(InitExpr::from_ops(&ops), Err(Error::Unsupported));

    assert_eq!(const_shape(&Operator::I64Const { value: -4 }), ConstShape::I64Const(-4));
    assert_eq!(const_shape(&Operator::GlobalGet { global_index: 6 }), ConstShape::GlobalGet(6));
    assert_eq!(const_shape(&Operator::RefFunc { function_index: 1 }), ConstShape::RefFunc(1));
    assert_eq!(const_shape(&Operator::End), ConstShape::End);
    assert_eq!(const_shape(&Operator::Nop), ConstShape::Other);
    assert_eq!(
        const_shape(&Operator::F32Const { value: wasmparser::Ieee32::from(2.5f32) }),
        ConstShape::F32Const(2.5f32.to_bits())
    );
    assert_eq!(
        const_shape(&Operator::F64Const { value: wasmparser::Ieee64::from(-0.5f64) }),
        ConstShape::F64Const((-0.5f64).to_bits())
    );
    assert_eq!(InitExpr::of_const(ConstShape::Other), Err(Error::InvalidConstExpr));
    assert_eq!(InitExpr::of_const(ConstShape::End), Err(Error::InvalidConstExpr));
    assert_eq!(
        InitExpr::of_const(ConstShape::RefNull(HeapShape::Id)),
        Err(Error::Unsupported)
    );
}

fn encoded(e: wasm_encoder::ConstExpr) -> Vec<u8> {
    let mut sink = Vec::new();
    e.encode(&mut sink);
    sink
}

#[test]
fn constant_expressions_are_encoded() {
    let func = RefShape {
        nullable: true,
        heap: HeapShape::Abstract { shared: false, ty: AbsHeap::Func },
    };
    let shared_extern = RefShape {
        nullable: false,
        heap: HeapShape::Abstract { shared: true, ty: AbsHeap::Extern },
    };
    let cases = [
        (InitExpr::Value(Value::I32(-7)), wasm_encoder::ConstExpr::i32_const(-7)),
        (InitExpr::Value(Value::I64(1 << 40)), wasm_encoder::ConstExpr::i64_const(1 << 40)),
        (InitExpr::Value(Value::V128(5)), wasm_encoder::ConstExpr::v128_const(5)),
        (InitExpr::Value(Value::V128(u128::MAX)), wasm_encoder::ConstExpr::v128_const(-1)),
        (InitExpr::Global(GlobalID(4)), wasm_encoder::ConstExpr::global_get(4)),
        (InitExpr::RefFunc(FunctionID(8)), wasm_encoder::ConstExpr::ref_func(8)),
        (InitExpr::RefNull(func), wasm_encoder::ConstExpr::ref_null(wasm_encoder::HeapType::FUNC)),
        (
            InitExpr::RefNull(shared_extern),
            wasm_encoder::ConstExpr::ref_null(wasm_encoder::HeapType::EXTERN),
        ),
    ];
    for (init, expected) in cases {
        assert_eq!(encoded(init.to_wasmencoder_type().unwrap()), encoded(expected));
    }
}

#[test]
fn constants_that_cannot_be_encoded_are_reported() {
    let float = InitExpr::Value(Value::F32(0x3f80_0000));
    assert_eq!(float.enc_shape(), Err(Error::FloatConstant));
    assert!(matches!(float.to_wasmencoder_type(), Err(Error::FloatConstant)));
    let double = InitExpr::Value(Value::F64(0));
    assert!(matches!(double.to_wasmencoder_type(), Err(Error::FloatConstant)));
    let any = InitExpr::RefNull(RefShape {
        nullable: true,
        heap: HeapShape::Abstract { shared: false, ty: AbsHeap::Any },
    });
    assert!(matches!(any.to_wasmencoder_type(), Err(Error::Unsupported)));
    let index = InitExpr::RefNull(RefShape { nullable: true, heap: HeapShape::Module(1) });
    assert_eq!(index.enc_shape(), Err(Error::Unsupported));
    assert_eq!(
        InitExpr::Global(GlobalID(2)).enc_shape(),
        Ok(EncConstShape::GlobalGet(2))
    );
}

#[test]
fn encoded_constant_expressions_evaluate_to_themselves() {
    let func = RefShape {
        nullable: true,
        heap: HeapShape::Abstract { shared: false, ty: AbsHeap::Func },
    };
    let cases = [
        InitExpr::Value(Value::I32(i32::MIN)),
        InitExpr::Value(Value::I64(i64::MAX)),
        InitExpr::Value(Value::V128(0x0123_4567_89ab_cdef_0011_2233_4455_6677)),
        InitExpr::Value(Value::V128(u128::MAX - 1)),
        InitExpr::Global(GlobalID(0)),
        InitExpr::RefFunc(FunctionID(u32::MAX)),
        InitExpr::RefNull(func),
    ];
    for init in cases {
        let bytes = encoded(init.to_wasmencoder_type().unwrap());
        assert_eq!(InitExpr::eval(&expr(&bytes)), Ok(init));
    }
}

#[test]
fn vector_bits_are_kept_by_the_signed_number() {
    assert_eq!(to_signed(0), 0);
    assert_eq!(to_signed(5), 5);
    assert_eq!(to_signed(i128::MAX as u128), i128::MAX);
    assert_eq!(to_signed(i128::MAX as u128 + 1), i128::MIN);
    assert_eq!(to_signed(u128::MAX), -1);
}

#[test]
fn data_segments_are_converted() {
    let offset = [0x41, 0x10, 0x0b];
    let active = wasmparser::Data {
        kind: wasmparser::DataKind::Active { memory_index: 2, offset_expr: expr(&offset) },
        data: &[1, 2, 3],
        range: 0..0,
    };
    let segment = DataSegment::from_wasmparser(active).unwrap();
    assert_eq!(
        segment.kind,
        DataSegmentKind::Active { memory_index: 2, offset_expr: InitExpr::Value(Value::I32(16)) }
    );
    assert_eq!(segment.data, vec![1, 2, 3]);

    let passive = wasmparser::Data { kind: wasmparser::DataKind::Passive, data: &[], range: 0..0 };
    let segment = DataSegment::from_wasmparser(passive).unwrap();
    assert_eq!(segment.kind, DataSegmentKind::Passive);
    assert_eq!(segment.data, Vec::<u8>::new());

    let bad = [0x01, 0x0b];
    let broken = wasmparser::Data {
        kind: wasmparser::DataKind::Active { memory_index: 0, offset_expr: expr(&bad) },
        data: &[9],
        range: 0..0,
    };
    assert!(matches!(DataSegment::from_wasmparser(broken), Err(Error::InvalidConstExpr)));
    assert_eq!(DataSegmentKind::from_wasmparser(None), Ok(DataSegmentKind::Passive));
    assert_eq!(
        DataSegmentKind::from_wasmparser(Some((1, expr(&[0x23, 0x00, 0x0b])))),
        Ok(DataSegmentKind::Active { memory_index: 1, offset_expr: InitExpr::Global(GlobalID(0)) })
    );
}

#[test]
fn element_items_are_made_from_indices_and_expressions() {
    match ElementItems::from_functions(vec![3, 0, 7, 3]) {
        ElementItems::Functions(f) => {
            assert_eq!(f, vec![FunctionID(3), FunctionID(0), FunctionID(7), FunctionID(3)])
        }
        ElementItems::ConstExprs { .. } => panic!("functions expected"),
    }
    match ElementItems::from_functions(vec![]) {
        ElementItems::Functions(f) => assert_eq!(f, vec![]),
        ElementItems::ConstExprs { .. } => panic!("functions expected"),
    }
    let first = [0xd2, 0x01, 0x0b];
    let second = [0xd0, 0x70, 0x0b];
    let items = ElementItems::from_exprs(RefType::FUNCREF, vec![expr(&first), expr(&second)]);
    match items.clone() {
        ElementItems::ConstExprs { ty, exprs } => {
            assert_eq!(
                ty,
                RefShape {
                    nullable: true,
                    heap: HeapShape::Abstract { shared: false, ty: AbsHeap::Func },
                }
            );
            assert_eq!(exprs.len(), 2);
            assert_eq!(InitExpr::eval(&exprs[0]), Ok(InitExpr::RefFunc(FunctionID(1))));
            assert_eq!(
                InitExpr::eval(&exprs[1]),
                Ok(InitExpr::RefNull(RefShape {
                    nullable: true,
                    heap: HeapShape::Abstract { shared: false, ty: AbsHeap::Func },
                }))
            );
        }
        ElementItems::Functions(_) => panic!("expressions expected"),
    }
    let index = RefType::new(
        false,
        wasmparser::HeapType::Concrete(wasmparser::UnpackedIndex::Module(5)),
    )
    .unwrap();
    match ElementItems::from_exprs(index, vec![]) {
        ElementItems::ConstExprs { ty, exprs } => {
            assert_eq!(ty, RefShape { nullable: false, heap: HeapShape::Module(5) });
            assert!(exprs.is_empty());
        }
        ElementItems::Functions(_) => panic!("expressions expected"),
    }
}

#[test]
fn element_kinds_are_copied_with_their_offset() {
    let offset = [0x41, 0x02, 0x0b];
    let kind = ElementKind::Active { table_index: Some(1), offset_expr: expr(&offset) };
    match kind.clone() {
        ElementKind::Active { table_index, offset_expr } => {
            assert_eq!(table_index, Some(1));
            assert_eq!(InitExpr::eval(&offset_expr), Ok(InitExpr::Value(Value::I32(2))));
        }
        _ => panic!("active expected"),
    }
    assert!(matches!(ElementKind::Passive.clone(), ElementKind::Passive));
    assert!(matches!(ElementKind::Declared.clone(), ElementKind::Declared));
}
