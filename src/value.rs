use vstd::prelude::*;

verus! {

/// The shape of a value as the encoder sees it. Names of named composites are
/// kept as their UTF-8 bytes, text as its UTF-8 bytes, and floats as their bit
/// patterns.
#[derive(Debug)]
pub enum Value {
    Bool(bool),
    I8(i8),
    I16(i16),
    I32(i32),
    I64(i64),
    U8(u8),
    U16(u16),
    U32(u32),
    U64(u64),
    /// A 32-bit float, by its bits.
    F32(u32),
    /// A 64-bit float, by its bits.
    F64(u64),
    Char(char),
    Str(Vec<u8>),
    Bytes(Vec<u8>),
    /// An optional value, present or not.
    Optional,
    Unit,
    UnitStruct(Vec<u8>),
    /// A named single-field wrapper.
    NewtypeStruct(Vec<u8>, Box<Value>),
    /// Any variant of an enum.
    Variant,
    Sequence(Vec<Value>),
    Tuple(Vec<Value>),
    /// A named tuple.
    TupleStruct(Vec<u8>, Vec<Value>),
    KeyValueMap,
    /// A struct with named fields, in declaration order.
    Struct(Vec<Value>),
}

} // verus!
