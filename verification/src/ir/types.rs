//! Value types and locations of instructions inside a module or a component.

use vstd::prelude::*;
use vstd::string::StringExecFns;
use wasmparser::ValType;
use crate::error::Error;
use crate::ir::encoder::{enc_val_of, reencode_val_type, reencoded, EncHeapShape, EncValShape};
use crate::ir::id::{FunctionID, ModuleID, TypeID};
use crate::text::{decimal, push_decimal};
use crate::ir::parser::{
    val_of, val_shape, val_type_of_shape, AbsHeap, BlockShape, HeapShape, RefShape, ValShape,
};

verus! {

/// The type of a value: the numeric and vector types, the abstract
/// reference types, and references to a type given by an index.
#[derive(Debug, Clone, Copy, Eq, Hash, PartialEq, Structural)]
pub enum DataType {
    I32,
    I64,
    F32,
    F64,
    V128,
    FuncRef,
    ExternRef,
    Any,
    NoneRef,
    NoExtern,
    NoFunc,
    Eq,
    Struct,
    Array,
    I31,
    Exn,
    NoExn,
    /// A reference to the type at an index of the module's type space.
    Module(ModuleID),
    /// A reference to the type at an index of the enclosing recursion group.
    RecGroup(u32),
    /// A reference to a type by its identifier in a validator's type list.
    CoreTypeId(u32),
}

/// The reference to an abstract heap type that is not shared.
pub open spec fn abstract_ref(nullable: bool, ty: AbsHeap) -> RefShape {
    RefShape { nullable, heap: HeapShape::Abstract { shared: false, ty } }
}

/// The reference to a heap type that does not admit null.
pub open spec fn strict_ref(heap: HeapShape) -> RefShape {
    RefShape { nullable: false, heap }
}

/// The decoder's shape of a reference to an abstract heap type that is not
/// shared.
fn unshared(nullable: bool, ty: AbsHeap) -> (r: ValShape)
    ensures
        r == ValShape::Ref(abstract_ref(nullable, ty)),
{
    ValShape::Ref(RefShape { nullable, heap: HeapShape::Abstract { shared: false, ty } })
}

/// The encoder's shape of a reference to an abstract heap type that is not
/// shared.
fn enc_unshared(nullable: bool, ty: AbsHeap) -> (r: EncValShape)
    ensures
        r == (EncValShape::Ref { nullable, heap: EncHeapShape::Abstract { shared: false, ty } }),
{
    EncValShape::Ref { nullable, heap: EncHeapShape::Abstract { shared: false, ty } }
}

impl DataType {
    /// The abstract heap type that the type refers to, for the twelve
    /// abstract reference types.
    pub open spec fn abstract_heap(self) -> Option<AbsHeap> {
        match self {
            DataType::FuncRef => Some(AbsHeap::Func),
            DataType::ExternRef => Some(AbsHeap::Extern),
            DataType::Any => Some(AbsHeap::Any),
            DataType::NoneRef => Some(AbsHeap::NoneHeap),
            DataType::NoExtern => Some(AbsHeap::NoExtern),
            DataType::NoFunc => Some(AbsHeap::NoFunc),
            DataType::Eq => Some(AbsHeap::Eq),
            DataType::Struct => Some(AbsHeap::Struct),
            DataType::Array => Some(AbsHeap::Array),
            DataType::I31 => Some(AbsHeap::I31),
            DataType::Exn => Some(AbsHeap::Exn),
            DataType::NoExn => Some(AbsHeap::NoExn),
            _ => None,
        }
    }

    /// The reference type that refers to a given abstract heap type.
    pub open spec fn of_abstract_heap(ty: AbsHeap) -> DataType {
        match ty {
            AbsHeap::Func => DataType::FuncRef,
            AbsHeap::Extern => DataType::ExternRef,
            AbsHeap::Any => DataType::Any,
            AbsHeap::NoneHeap => DataType::NoneRef,
            AbsHeap::NoExtern => DataType::NoExtern,
            AbsHeap::NoFunc => DataType::NoFunc,
            AbsHeap::Eq => DataType::Eq,
            AbsHeap::Struct => DataType::Struct,
            AbsHeap::Array => DataType::Array,
            AbsHeap::I31 => DataType::I31,
            AbsHeap::Exn => DataType::Exn,
            AbsHeap::NoExn => DataType::NoExn,
        }
    }

    /// Whether a reference of the type admits null: `funcref` and
    /// `externref` do, every other reference type does not.
    pub open spec fn admits_null(self) -> bool {
        self == DataType::FuncRef || self == DataType::ExternRef
    }

    /// The shape of the decoder's value type that stands for the type.
    /// There is none for a type that is given by a validator's identifier.
    pub open spec fn spec_shape(self) -> Option<ValShape> {
        match self {
            DataType::I32 => Some(ValShape::I32),
            DataType::I64 => Some(ValShape::I64),
            DataType::F32 => Some(ValShape::F32),
            DataType::F64 => Some(ValShape::F64),
            DataType::V128 => Some(ValShape::V128),
            DataType::Module(idx) => Some(ValShape::Ref(strict_ref(HeapShape::Module(idx.0)))),
            DataType::RecGroup(idx) => Some(ValShape::Ref(strict_ref(HeapShape::RecGroup(idx)))),
            DataType::CoreTypeId(_) => None,
            _ => Some(
                ValShape::Ref(abstract_ref(self.admits_null(), self.abstract_heap().unwrap())),
            ),
        }
    }

    /// The type that a value type of the decoder of a given shape stands
    /// for. Of a reference type only the heap type counts. There is none for
    /// a reference to a type that is given by a validator's identifier.
    pub open spec fn spec_of_shape(shape: ValShape) -> Option<DataType> {
        match shape {
            ValShape::I32 => Some(DataType::I32),
            ValShape::I64 => Some(DataType::I64),
            ValShape::F32 => Some(DataType::F32),
            ValShape::F64 => Some(DataType::F64),
            ValShape::V128 => Some(DataType::V128),
            ValShape::Ref(r) => match r.heap {
                HeapShape::Abstract { shared, ty } => Some(DataType::of_abstract_heap(ty)),
                HeapShape::Module(idx) => Some(DataType::Module(ModuleID(idx))),
                HeapShape::RecGroup(idx) => Some(DataType::RecGroup(idx)),
                HeapShape::Id => None,
            },
        }
    }

    /// The shape of the encoder's value type that stands for the type. The
    /// three kinds of indexed reference all become a reference to the
    /// concrete type at that index.
    pub open spec fn spec_enc_shape(self) -> EncValShape {
        match self {
            DataType::I32 => EncValShape::I32,
            DataType::I64 => EncValShape::I64,
            DataType::F32 => EncValShape::F32,
            DataType::F64 => EncValShape::F64,
            DataType::V128 => EncValShape::V128,
            DataType::Module(idx) => EncValShape::Ref {
                nullable: false,
                heap: EncHeapShape::Concrete(idx.0),
            },
            DataType::RecGroup(idx) => EncValShape::Ref {
                nullable: false,
                heap: EncHeapShape::Concrete(idx),
            },
            DataType::CoreTypeId(idx) => EncValShape::Ref {
                nullable: false,
                heap: EncHeapShape::Concrete(idx),
            },
            _ => EncValShape::Ref {
                nullable: self.admits_null(),
                heap: EncHeapShape::Abstract { shared: false, ty: self.abstract_heap().unwrap() },
            },
        }
    }

    /// The decoder's value type for this type can be built: the type is not
    /// given by a validator's identifier, and an index is below 2^20.
    pub open spec fn representable(self) -> bool {
        match self {
            DataType::Module(idx) => idx.0 < crate::ir::parser::index_limit(),
            DataType::RecGroup(idx) => idx < crate::ir::parser::index_limit(),
            DataType::CoreTypeId(_) => false,
            _ => true,
        }
    }

    /// The description of the type: `DataType: ` and the name of the
    /// variant, followed for an indexed reference by a space and the index.
    /// The index of `Module` is written as `ModuleID(..)`.
    pub open spec fn spec_text(self) -> Seq<char> {
        match self {
            DataType::I32 => "DataType: I32"@,
            DataType::I64 => "DataType: I64"@,
            DataType::F32 => "DataType: F32"@,
            DataType::F64 => "DataType: F64"@,
            DataType::V128 => "DataType: V128"@,
            DataType::FuncRef => "DataType: FuncRef"@,
            DataType::ExternRef => "DataType: ExternRef"@,
            DataType::Any => "DataType: Any"@,
            DataType::NoneRef => "DataType: None"@,
            DataType::NoExtern => "DataType: NoExtern"@,
            DataType::NoFunc => "DataType: NoFunc"@,
            DataType::Eq => "DataType: Eq"@,
            DataType::Struct => "DataType: Struct"@,
            DataType::Array => "DataType: Array"@,
            DataType::I31 => "DataType: I31"@,
            DataType::Exn => "DataType: Exn"@,
            DataType::NoExn => "DataType: NoExn"@,
            DataType::Module(idx) => "DataType: Module ModuleID("@ + decimal(idx.0 as nat) + ")"@,
            DataType::RecGroup(idx) => "DataType: RecGroup "@ + decimal(idx as nat),
            DataType::CoreTypeId(idx) => "DataType: CoreTypeId "@ + decimal(idx as nat),
        }
    }

    /// The description of the type.
    pub fn to_string(&self) -> (text: String)
        ensures
            text@ == self.spec_text(),
    {
        match self {
            DataType::I32 => String::from_str("DataType: I32"),
            DataType::I64 => String::from_str("DataType: I64"),
            DataType::F32 => String::from_str("DataType: F32"),
            DataType::F64 => String::from_str("DataType: F64"),
            DataType::V128 => String::from_str("DataType: V128"),
            DataType::FuncRef => String::from_str("DataType: FuncRef"),
            DataType::ExternRef => String::from_str("DataType: ExternRef"),
            DataType::Any => String::from_str("DataType: Any"),
            DataType::NoneRef => String::from_str("DataType: None"),
            DataType::NoExtern => String::from_str("DataType: NoExtern"),
            DataType::NoFunc => String::from_str("DataType: NoFunc"),
            DataType::Eq => String::from_str("DataType: Eq"),
            DataType::Struct => String::from_str("DataType: Struct"),
            DataType::Array => String::from_str("DataType: Array"),
            DataType::I31 => String::from_str("DataType: I31"),
            DataType::Exn => String::from_str("DataType: Exn"),
            DataType::NoExn => String::from_str("DataType: NoExn"),
            DataType::Module(idx) => {
                let mut text = String::from_str("DataType: Module ModuleID(");
                push_decimal(&mut text, idx.0 as u64);
                text.append(")");
                text
            },
            DataType::RecGroup(idx) => {
                let mut text = String::from_str("DataType: RecGroup ");
                push_decimal(&mut text, *idx as u64);
                text
            },
            DataType::CoreTypeId(idx) => {
                let mut text = String::from_str("DataType: CoreTypeId ");
                push_decimal(&mut text, *idx as u64);
                text
            },
        }
    }

    /// The reference type that refers to a given abstract heap type.
    fn from_abstract_heap(ty: AbsHeap) -> (r: DataType)
        ensures
            r == DataType::of_abstract_heap(ty),
    {
        match ty {
            AbsHeap::Func => DataType::FuncRef,
            AbsHeap::Extern => DataType::ExternRef,
            AbsHeap::Any => DataType::Any,
            AbsHeap::NoneHeap => DataType::NoneRef,
            AbsHeap::NoExtern => DataType::NoExtern,
            AbsHeap::NoFunc => DataType::NoFunc,
            AbsHeap::Eq => DataType::Eq,
            AbsHeap::Struct => DataType::Struct,
            AbsHeap::Array => DataType::Array,
            AbsHeap::I31 => DataType::I31,
            AbsHeap::Exn => DataType::Exn,
            AbsHeap::NoExn => DataType::NoExn,
        }
    }

    /// The type that a value type of the decoder of the given shape stands
    /// for. Fails with `Error::Unsupported` for a reference to a type that
    /// is given by a validator's identifier.
    pub fn of_shape(shape: ValShape) -> (r: Result<DataType, Error>)
        ensures
            match DataType::spec_of_shape(shape) {
                Some(ty) => r == Ok::<DataType, Error>(ty),
                None => r == Err::<DataType, Error>(Error::Unsupported),
            },
    {
        match shape {
            ValShape::I32 => Ok(DataType::I32),
            ValShape::I64 => Ok(DataType::I64),
            ValShape::F32 => Ok(DataType::F32),
            ValShape::F64 => Ok(DataType::F64),
            ValShape::V128 => Ok(DataType::V128),
            ValShape::Ref(r) => match r.heap {
                HeapShape::Abstract { shared: _, ty } => Ok(DataType::from_abstract_heap(ty)),
                HeapShape::Module(idx) => Ok(DataType::Module(ModuleID(idx))),
                HeapShape::RecGroup(idx) => Ok(DataType::RecGroup(idx)),
                HeapShape::Id => Err(Error::Unsupported),
            },
        }
    }

    /// The shape of the decoder's value type that stands for the type, or
    /// `None` for a type that is given by a validator's identifier.
    #[verifier::when_used_as_spec(spec_shape)]
    pub fn shape(self) -> (r: Option<ValShape>)
        ensures
            r == self.spec_shape(),
    {
        match self {
            DataType::I32 => Some(ValShape::I32),
            DataType::I64 => Some(ValShape::I64),
            DataType::F32 => Some(ValShape::F32),
            DataType::F64 => Some(ValShape::F64),
            DataType::V128 => Some(ValShape::V128),
            DataType::FuncRef => Some(unshared(true, AbsHeap::Func)),
            DataType::ExternRef => Some(unshared(true, AbsHeap::Extern)),
            DataType::Any => Some(unshared(false, AbsHeap::Any)),
            DataType::NoneRef => Some(unshared(false, AbsHeap::NoneHeap)),
            DataType::NoExtern => Some(unshared(false, AbsHeap::NoExtern)),
            DataType::NoFunc => Some(unshared(false, AbsHeap::NoFunc)),
            DataType::Eq => Some(unshared(false, AbsHeap::Eq)),
            DataType::Struct => Some(unshared(false, AbsHeap::Struct)),
            DataType::Array => Some(unshared(false, AbsHeap::Array)),
            DataType::I31 => Some(unshared(false, AbsHeap::I31)),
            DataType::Exn => Some(unshared(false, AbsHeap::Exn)),
            DataType::NoExn => Some(unshared(false, AbsHeap::NoExn)),
            DataType::Module(idx) => Some(
                ValShape::Ref(RefShape { nullable: false, heap: HeapShape::Module(idx.0) }),
            ),
            DataType::RecGroup(idx) => Some(
                ValShape::Ref(RefShape { nullable: false, heap: HeapShape::RecGroup(idx) }),
            ),
            DataType::CoreTypeId(_) => None,
        }
    }

    /// The shape of the encoder's value type that stands for the type.
    #[verifier::when_used_as_spec(spec_enc_shape)]
    pub fn enc_shape(self) -> (r: EncValShape)
        ensures
            r == self.spec_enc_shape(),
    {
        match self {
            DataType::I32 => EncValShape::I32,
            DataType::I64 => EncValShape::I64,
            DataType::F32 => EncValShape::F32,
            DataType::F64 => EncValShape::F64,
            DataType::V128 => EncValShape::V128,
            DataType::FuncRef => enc_unshared(true, AbsHeap::Func),
            DataType::ExternRef => enc_unshared(true, AbsHeap::Extern),
            DataType::Any => enc_unshared(false, AbsHeap::Any),
            DataType::NoneRef => enc_unshared(false, AbsHeap::NoneHeap),
            DataType::NoExtern => enc_unshared(false, AbsHeap::NoExtern),
            DataType::NoFunc => enc_unshared(false, AbsHeap::NoFunc),
            DataType::Eq => enc_unshared(false, AbsHeap::Eq),
            DataType::Struct => enc_unshared(false, AbsHeap::Struct),
            DataType::Array => enc_unshared(false, AbsHeap::Array),
            DataType::I31 => enc_unshared(false, AbsHeap::I31),
            DataType::Exn => enc_unshared(false, AbsHeap::Exn),
            DataType::NoExn => enc_unshared(false, AbsHeap::NoExn),
            DataType::Module(idx) => EncValShape::Ref {
                nullable: false,
                heap: EncHeapShape::Concrete(idx.0),
            },
            DataType::RecGroup(idx) => EncValShape::Ref {
                nullable: false,
                heap: EncHeapShape::Concrete(idx),
            },
            DataType::CoreTypeId(idx) => EncValShape::Ref {
                nullable: false,
                heap: EncHeapShape::Concrete(idx),
            },
        }
    }

    /// The type that a value type of the decoder stands for.
    ///
    /// The numeric and vector types map to the type of the same name. Of a
    /// reference type only the heap type counts: an abstract heap type gives
    /// the reference type of that name, an index gives `Module` or
    /// `RecGroup`. Fails with `Error::Unsupported` for a reference to a type
    /// that is given by a validator's identifier.
    pub fn from_valtype(ty: ValType) -> (r: Result<DataType, Error>)
        ensures
            match DataType::spec_of_shape(val_of(ty)) {
                Some(d) => r == Ok::<DataType, Error>(d),
                None => r == Err::<DataType, Error>(Error::Unsupported),
            },
    {
        DataType::of_shape(val_shape(ty))
    }

    /// The value type of the decoder that stands for the type.
    ///
    /// `FuncRef` and `ExternRef` become nullable references, every other
    /// reference type a reference that does not admit null; no reference is
    /// shared. Fails with `Error::Unsupported` for `CoreTypeId`, and for an
    /// index that the decoder's packed reference type cannot hold, which is
    /// one of 2^20 or more.
    pub fn to_valtype(&self) -> (r: Result<ValType, Error>)
        ensures
            match r {
                Ok(ty) => self.representable() && Some(val_of(ty)) == self.spec_shape(),
                Err(e) => !self.representable() && e == Error::Unsupported,
            },
    {
        match self.shape() {
            Some(shape) => match val_type_of_shape(shape) {
                Some(ty) => Ok(ty),
                None => Err(Error::Unsupported),
            },
            None => Err(Error::Unsupported),
        }
    }

    /// The value type of the encoder that stands for the type.
    ///
    /// As [`DataType::to_valtype`], but every index is accepted, and
    /// `CoreTypeId` becomes a reference to the concrete type at its index.
    pub fn to_wasmencoder_type(&self) -> (ty: wasm_encoder::ValType)
        ensures
            enc_val_of(ty) == self.spec_enc_shape(),
    {
        crate::ir::encoder::val_type_of_shape(self.enc_shape())
    }
}

/// A type that the decoder's value types can represent comes back from its
/// own shape, and the encoder's shape of it is what re-encoding makes of the
/// decoder's, but for a recursion-group index, which cannot be re-encoded.
pub proof fn lemma_data_type_round_trip(ty: DataType)
    requires
        !(ty is CoreTypeId),
    ensures
        ty.spec_shape() is Some,
        DataType::spec_of_shape(ty.spec_shape().unwrap()) == Some(ty),
        !(ty is RecGroup) ==> reencoded(ty.spec_shape().unwrap()) == Some(ty.spec_enc_shape()),
{
}

/// A value type of the decoder that was made for a type stands for that
/// type.
pub proof fn lemma_decode_inverts_encode(ty: DataType, made: ValType)
    requires
        ty.spec_shape() == Some(val_of(made)),
    ensures
        DataType::spec_of_shape(val_of(made)) == Some(ty),
{
}

/// Converts a value type of the decoder to the value type of the encoder
/// that encodes it.
///
/// Fails with `Error::Unsupported` for a reference to a concrete type that
/// is not given by an index of the module's type space.
pub fn valtype_to_wasmencoder_type(val_type: &ValType) -> (r: Result<wasm_encoder::ValType, Error>)
    ensures
        match r {
            Ok(ty) => reencoded(val_of(*val_type)) == Some(enc_val_of(ty)),
            Err(e) => reencoded(val_of(*val_type)) is None && e == Error::Unsupported,
        },
{
    match reencode_val_type(*val_type) {
        Some(ty) => Ok(ty),
        None => Err(Error::Unsupported),
    }
}

/// What a block produces.
#[derive(Debug, Clone, Copy, PartialEq, Eq, Structural)]
pub enum BlockType {
    /// The block neither consumes nor produces a value.
    Empty,
    /// The block produces one value of the given type.
    Type(DataType),
    /// The block has the function type at the given index of the type
    /// section.
    FuncType(TypeID),
}

impl BlockType {
    /// The shape of the decoder's block type that stands for this one.
    pub open spec fn spec_shape(self) -> Option<BlockShape> {
        match self {
            BlockType::Empty => Some(BlockShape::Empty),
            BlockType::Type(ty) => match ty.spec_shape() {
                Some(s) => Some(BlockShape::Type(s)),
                None => None,
            },
            BlockType::FuncType(idx) => Some(BlockShape::FuncType(idx.0)),
        }
    }

    /// The block type that a block type of the decoder of a given shape
    /// stands for.
    pub open spec fn spec_of_shape(shape: BlockShape) -> Option<BlockType> {
        match shape {
            BlockShape::Empty => Some(BlockType::Empty),
            BlockShape::Type(s) => match DataType::spec_of_shape(s) {
                Some(ty) => Some(BlockType::Type(ty)),
                None => None,
            },
            BlockShape::FuncType(idx) => Some(BlockType::FuncType(TypeID(idx))),
        }
    }

    /// The block type that a block type of the decoder of the given shape
    /// stands for. Fails with `Error::Unsupported` for a value type that
    /// [`DataType::of_shape`] does not support.
    pub fn of_shape(shape: BlockShape) -> (r: Result<BlockType, Error>)
        ensures
            match BlockType::spec_of_shape(shape) {
                Some(ty) => r == Ok::<BlockType, Error>(ty),
                None => r == Err::<BlockType, Error>(Error::Unsupported),
            },
    {
        match shape {
            BlockShape::Empty => Ok(BlockType::Empty),
            BlockShape::FuncType(u) => Ok(BlockType::FuncType(TypeID(u))),
            BlockShape::Type(val) => match DataType::of_shape(val) {
                Ok(ty) => Ok(BlockType::Type(ty)),
                Err(e) => Err(e),
            },
        }
    }

    /// The shape of the decoder's block type that stands for this one, or
    /// `None` for a value type that is given by a validator's identifier.
    #[verifier::when_used_as_spec(spec_shape)]
    pub fn shape(self) -> (r: Option<BlockShape>)
        ensures
            r == self.spec_shape(),
    {
        match self {
            BlockType::Empty => Some(BlockShape::Empty),
            BlockType::FuncType(u) => Some(BlockShape::FuncType(u.0)),
            BlockType::Type(data) => match data.shape() {
                Some(s) => Some(BlockShape::Type(s)),
                None => None,
            },
        }
    }
}

/// A block type whose value type the decoder can represent comes back from
/// its own shape.
pub proof fn lemma_block_type_round_trip(ty: BlockType)
    requires
        !(ty matches BlockType::Type(DataType::CoreTypeId(_))),
    ensures
        ty.spec_shape() is Some,
        BlockType::spec_of_shape(ty.spec_shape().unwrap()) == Some(ty),
{
    match ty {
        BlockType::Type(d) => lemma_data_type_round_trip(d),
        _ => {},
    }
}

/// A unique instruction site in a module or in a component.
///
/// A component-local location is only ever made from a module-local one, by
/// [`Location::in_component`], so the two never disagree about a site.
#[derive(Debug, Clone, Copy, PartialEq, Eq, Structural)]
pub enum Location {
    Component { mod_idx: ModuleID, func_idx: FunctionID, instr_idx: usize },
    Module { func_idx: FunctionID, instr_idx: usize },
}

impl Location {
    /// The component-local location of a module-local site of module `m`.
    /// A location that is component-local already is left as it is.
    pub open spec fn in_module(self, m: ModuleID) -> Location {
        match self {
            Location::Module { func_idx, instr_idx } => Location::Component {
                mod_idx: m,
                func_idx,
                instr_idx,
            },
            Location::Component { .. } => self,
        }
    }

    /// The module-local part of a location.
    pub open spec fn module_local(self) -> Location {
        match self {
            Location::Component { mod_idx, func_idx, instr_idx } => Location::Module {
                func_idx,
                instr_idx,
            },
            Location::Module { .. } => self,
        }
    }

    /// Places a module-local location inside module `mod_idx` of a component.
    pub fn in_component(self, mod_idx: ModuleID) -> (r: Result<Location, Error>)
        ensures
            self is Module ==> r == Ok::<Location, Error>(self.in_module(mod_idx)),
            self is Component ==> r == Err::<Location, Error>(Error::UnexpectedLocation),
    {
        match self {
            Location::Module { func_idx, instr_idx } => Ok(
                Location::Component { mod_idx, func_idx, instr_idx },
            ),
            Location::Component { .. } => Err(Error::UnexpectedLocation),
        }
    }

    /// Drops the module index of a component-local location.
    pub fn strip_module(self) -> (r: Location)
        ensures
            r == self.module_local(),
    {
        match self {
            Location::Component { mod_idx: _, func_idx, instr_idx } => Location::Module {
                func_idx,
                instr_idx,
            },
            Location::Module { .. } => self,
        }
    }
}

/// Placing a module-local location in a module and dropping the module index
/// again gives the location back, and the result names that module.
pub proof fn lemma_location_duality(loc: Location, m: ModuleID)
    requires
        loc is Module,
    ensures
        loc.in_module(m) is Component,
        loc.in_module(m)->Component_mod_idx == m,
        loc.in_module(m).module_local() == loc,
{
}

} // verus!
