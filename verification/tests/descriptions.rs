use orca_wasm::ir::id::ModuleID;
use orca_wasm::ir::instr_flag::{
    FuncInstrFlag, FuncInstrMode, InstrumentationFlag, InstrumentationMode,
};
use orca_wasm::ir::types::DataType;
use orca_wasm::text::push_decimal;
use wasmparser::Operator;

fn decimal_text(n: u64) -> String {
    let mut text = String::new();
    push_decimal(&mut text, n);
    text
}

#[test]
fn numbers_are_written_in_decimal() {
    assert_eq!(decimal_text(0), "0");
    assert_eq!(decimal_text(7), "7");
    assert_eq!(decimal_text(10), "10");
    assert_eq!(decimal_text(1234567890), "1234567890");
    assert_eq!(decimal_text(u64::MAX), u64::MAX.to_string());
    let mut text = String::from("n = ");
    push_decimal(&mut text, 405);
    assert_eq!(text, "n = 405");
}

#[test]
fn data_types_describe_themselves() {
    let plain = [
        (DataType::I32, "DataType: I32"),
        (DataType::I64, "DataType: I64"),
        (DataType::F32, "DataType: F32"),
        (DataType::F64, "DataType: F64"),
        (DataType::V128, "DataType: V128"),
        (DataType::FuncRef, "DataType: FuncRef"),
        (DataType::ExternRef, "DataType: ExternRef"),
        (DataType::Any, "DataType: Any"),
        (DataType::NoneRef, "DataType: None"),
        (DataType::NoExtern, "DataType: NoExtern"),
        (DataType::NoFunc, "DataType: NoFunc"),
        (DataType::Eq, "DataType: Eq"),
        (DataType::Struct, "DataType: Struct"),
        (DataType::Array, "DataType: Array"),
        (DataType::I31, "DataType: I31"),
        (DataType::Exn, "DataType: Exn"),
        (DataType::NoExn, "DataType: NoExn"),
        (DataType::Module(ModuleID(5)), "DataType: Module ModuleID(5)"),
        (DataType::RecGroup(12), "DataType: RecGroup 12"),
        (DataType::CoreTypeId(0), "DataType: CoreTypeId 0"),
        (DataType::CoreTypeId(u32::MAX), "DataType: CoreTypeId 4294967295"),
    ];
    for (ty, text) in plain {
        assert_eq!(ty.to_string(), text);
    }
}

#[test]
fn function_flag_describes_itself() {
    let mut flag = FuncInstrFlag::default();
    assert_eq!(
        flag.to_string(),
        "Not InstrumentedHas special instrumentation: false\n Func Entry: 0 instructions\n Func Exit: 0 instructions"
    );
    flag.enter_mode(FuncInstrMode::Exit);
    for value in 0..11 {
        flag.add_instr(Operator::I32Const { value }).unwrap();
    }
    flag.enter_mode(FuncInstrMode::Entry);
    flag.add_instr(Operator::Nop).unwrap();
    assert_eq!(
        flag.to_string(),
        "Has special instrumentation: false\n Func Entry: 1 instructions\n Func Exit: 11 instructions"
    );
    flag.has_special_instr = true;
    assert_eq!(
        flag.to_string(),
        "Has special instrumentation: true\n Func Entry: 1 instructions\n Func Exit: 11 instructions"
    );
}

#[test]
fn instruction_flag_describes_itself() {
    let mut flag = InstrumentationFlag::default();
    flag.alternate = Some(vec![]);
    flag.block_alt = Some(vec![Operator::Nop, Operator::Nop]);
    flag.enter_mode(InstrumentationMode::After);
    for _ in 0..3 {
        flag.add_instr(&Operator::Nop, Operator::Drop).unwrap();
    }
    flag.enter_mode(InstrumentationMode::BlockExit);
    flag.add_instr(&Operator::Else, Operator::Drop).unwrap();
    assert_eq!(
        flag.to_string(),
        "Before: 0 instructions\n After: 3 instructions\n Alternate: 0 instructions\n Semantic After: 0 instructions\n Block Entry: 0 instructions\n Block Exit: 1 instructions\n Block Alt: 2 instructions"
    );
}
