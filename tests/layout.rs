use serde_webgpu::align::Align;
use serde_webgpu::serializer::vec_align;
use serde_webgpu::vec::{vec2, vec3, vec4};
use serde_webgpu::{serialize_webgpu, serialize_webgpu_buffer, ErrorKind, Value, WebGPUBlock, WebGPUSerializeError};

fn named(name: &str, fields: Vec<Value>) -> Value {
    Value::TupleStruct(name.as_bytes().to_vec(), fields)
}

fn words(n: u32) -> Vec<Value> {
    (1..=n).map(Value::U32).collect()
}

fn halves(n: u16) -> Vec<Value> {
    (1..=n).map(|x| Value::NewtypeStruct(b"f16".to_vec(), Box::new(Value::U16(x)))).collect()
}

fn kind(r: Result<Vec<u8>, WebGPUSerializeError>) -> ErrorKind {
    r.unwrap_err().kind
}

/// Offset at which a vector starts when placed in a one-member tuple after a byte.
fn vector_offset(vector: Value) -> usize {
    let v = Value::Struct(vec![Value::U8(0xAA), Value::Tuple(vec![vector])]);
    let bytes = serialize_webgpu(&v).unwrap();
    bytes.iter().skip(1).position(|b| *b != 0).unwrap() + 1
}

#[test]
fn align_combines_to_the_larger() {
    assert_eq!(Align::Align4.with(Align::Align16), Align::Align16);
    assert_eq!(Align::Align8.with(Align::Align1), Align::Align8);
    assert_eq!(Align::Align0.with(Align::Align0), Align::Align0);
    let mut a = Align::Align2;
    a.append(Align::Align1);
    assert_eq!(a, Align::Align2);
    a.append(Align::Align8);
    assert_eq!(a, Align::Align8);
    let all = [Align::Align0, Align::Align1, Align::Align2, Align::Align4, Align::Align8, Align::Align16];
    let values: Vec<usize> = all.iter().map(|a| a.value()).collect();
    assert_eq!(values, vec![0, 1, 2, 4, 8, 16]);
}

#[test]
fn block_resolves_markers_into_padding() {
    let mut block = WebGPUBlock::new();
    block.append(&[7]);
    let m = block.align(Align::Align0);
    block.align_append(m, Align::Align4);
    assert_eq!(block.get_align(m), Align::Align4);
    block.append(&[1, 2]);
    block.align(Align::Align8);
    assert_eq!(block.compute_layout(), vec![7, 0, 0, 0, 1, 2, 0, 0]);
}

#[test]
fn scalars_have_fixed_widths() {
    assert_eq!(serialize_webgpu(&Value::Bool(true)).unwrap(), vec![1]);
    assert_eq!(serialize_webgpu(&Value::I8(-1)).unwrap(), vec![0xFF]);
    assert_eq!(serialize_webgpu(&Value::U8(9)).unwrap(), vec![9]);
    assert_eq!(serialize_webgpu(&Value::I16(-2)).unwrap(), vec![0xFE, 0xFF]);
    assert_eq!(serialize_webgpu(&Value::U16(0x1234)).unwrap(), vec![0x34, 0x12]);
    assert_eq!(serialize_webgpu(&Value::I32(-1)).unwrap(), vec![0xFF; 4]);
    assert_eq!(serialize_webgpu(&Value::U32(0x01020304)).unwrap(), vec![4, 3, 2, 1]);
    assert_eq!(serialize_webgpu(&Value::F32(1.5f32.to_bits())).unwrap(), 1.5f32.to_le_bytes().to_vec());
    assert_eq!(serialize_webgpu(&Value::Char('é')).unwrap(), vec![0xE9, 0, 0, 0]);
}

#[test]
fn scalars_start_at_their_alignment() {
    let v = Value::Struct(vec![Value::U8(1), Value::U32(2), Value::U8(3), Value::U16(4), Value::Char('A')]);
    assert_eq!(
        serialize_webgpu(&v).unwrap(),
        vec![1, 0, 0, 0, 2, 0, 0, 0, 3, 0, 0, 0, 4, 0, 0, 0, 65, 0, 0, 0]
    );
}

#[test]
fn signed_sixteen_bit_pads_to_two() {
    let v = Value::Struct(vec![Value::U8(1), Value::I16(2)]);
    assert_eq!(serialize_webgpu(&v).unwrap(), vec![1, 0, 2, 0]);
    let u = Value::Struct(vec![Value::U8(1), Value::U16(2)]);
    assert_eq!(serialize_webgpu(&u).unwrap(), vec![1, 0, 0, 0, 2, 0, 0, 0]);
}

#[test]
fn text_and_bytes_have_no_prefix() {
    let v = Value::Struct(vec![Value::U32(1), Value::Str(b"hi".to_vec()), Value::Bytes(vec![5, 6, 7])]);
    assert_eq!(serialize_webgpu(&v).unwrap(), vec![1, 0, 0, 0, b'h', b'i', 5, 6, 7, 0, 0, 0]);
}

#[test]
fn half_wrapper_is_its_bits() {
    let v = Value::Struct(vec![Value::U8(1), Value::NewtypeStruct(b"f16".to_vec(), Box::new(Value::U16(0x3C00)))]);
    assert_eq!(serialize_webgpu(&v).unwrap(), vec![1, 0, 0, 0, 0x00, 0x3C, 0, 0]);
    let other = Value::NewtypeStruct(b"Meters".to_vec(), Box::new(Value::U8(5)));
    assert_eq!(serialize_webgpu(&other).unwrap(), vec![5]);
}

#[test]
fn composite_length_is_multiple_of_its_alignment() {
    let v = Value::Struct(vec![Value::U32(1), Value::U8(2)]);
    assert_eq!(serialize_webgpu(&v).unwrap().len(), 8);
    let t = Value::Tuple(vec![Value::U8(1), Value::U8(2), Value::U8(3)]);
    assert_eq!(serialize_webgpu(&t).unwrap().len(), 3);
    let nested = Value::Struct(vec![Value::Tuple(vec![Value::U32(1), Value::U8(2)]), Value::U8(3)]);
    assert_eq!(serialize_webgpu(&nested).unwrap(), vec![1, 0, 0, 0, 2, 0, 0, 0, 3, 0, 0, 0]);
}

#[test]
fn encoding_is_repeatable() {
    let v = Value::Struct(vec![Value::U8(1), named("vec3@f32", words(3))]);
    assert_eq!(serialize_webgpu(&v).unwrap(), serialize_webgpu(&v).unwrap());
}

#[test]
fn forced_alignment_table() {
    assert_eq!(vector_offset(named("vec4@f32", words(4))), 16);
    assert_eq!(vector_offset(named("vec4@f16", halves(4))), 8);
    assert_eq!(vector_offset(named("vec3@i32", words(3))), 16);
    assert_eq!(vector_offset(named("vec2@i32", words(2))), 8);
    assert_eq!(vector_offset(named("vec2@f16", halves(2))), 4);
    assert_eq!(vector_offset(named("vec3@f16", halves(3))), 8);
    assert_eq!(vector_offset(named("vec2@u32", words(2))), 8);
    assert_eq!(vector_offset(named("vec4@u32", words(4))), 16);
}

#[test]
fn forced_alignment_lookup() {
    let cases: [(&str, usize, Align); 9] = [
        ("vec2@f16", 2, Align::Align4),
        ("vec3@f16", 3, Align::Align8),
        ("vec4@f16", 4, Align::Align8),
        ("vec2@f32", 2, Align::Align8),
        ("vec3@u32", 3, Align::Align16),
        ("vec4@i32", 4, Align::Align16),
        ("vec3@f32", 2, Align::Align0),
        ("vec2@f64", 2, Align::Align0),
        ("Point", 2, Align::Align0),
    ];
    for (name, len, align) in cases {
        assert_eq!(vec_align(&name.as_bytes().to_vec(), len), align, "{}", name);
    }
}

#[test]
fn unrecognised_name_is_not_forced() {
    assert_eq!(vector_offset(named("vec3@f32", words(2))), 4);
    assert_eq!(vector_offset(named("Pair", words(2))), 4);
}

#[test]
fn buffer_length_is_multiple_of_sixteen() {
    assert_eq!(serialize_webgpu(&Value::U8(1)).unwrap().len(), 1);
    assert_eq!(serialize_webgpu_buffer(&Value::U8(1)).unwrap(), {
        let mut b = vec![1u8];
        b.resize(16, 0);
        b
    });
    let v = Value::Struct(words(5));
    assert_eq!(serialize_webgpu(&v).unwrap().len(), 20);
    assert_eq!(serialize_webgpu_buffer(&v).unwrap().len(), 32);
}

#[test]
fn unsupported_values_fail() {
    assert!(matches!(kind(serialize_webgpu(&Value::I64(1))), ErrorKind::UnsupportedWidth));
    assert!(matches!(kind(serialize_webgpu(&Value::U64(1))), ErrorKind::UnsupportedWidth));
    assert!(matches!(kind(serialize_webgpu(&Value::F64(0))), ErrorKind::UnsupportedWidth));
    assert!(matches!(kind(serialize_webgpu(&Value::Optional)), ErrorKind::UnsupportedShape));
    assert!(matches!(kind(serialize_webgpu(&Value::Variant)), ErrorKind::UnsupportedShape));
    assert!(matches!(kind(serialize_webgpu(&Value::KeyValueMap)), ErrorKind::UnsupportedShape));
    assert!(matches!(kind(serialize_webgpu(&Value::Unit)), ErrorKind::ZeroSize));
    assert!(matches!(kind(serialize_webgpu(&Value::Tuple(vec![]))), ErrorKind::ZeroSize));
    assert!(matches!(kind(serialize_webgpu(&Value::UnitStruct(b"Empty".to_vec()))), ErrorKind::ZeroSize));
    assert!(matches!(kind(serialize_webgpu_buffer(&Value::I64(1))), ErrorKind::UnsupportedWidth));
}

#[test]
fn first_failing_member_decides_the_error() {
    let v = Value::Struct(vec![Value::U8(1), Value::Optional, Value::I64(3)]);
    assert!(matches!(kind(serialize_webgpu(&v)), ErrorKind::UnsupportedShape));
    let w = Value::Struct(vec![Value::Tuple(vec![]), Value::I64(3)]);
    assert!(matches!(kind(serialize_webgpu(&w)), ErrorKind::ZeroSize));
}

#[test]
fn error_messages() {
    let e = serialize_webgpu(&Value::Unit).unwrap_err();
    assert_eq!(e.message(), "zero size type is not supported");
    let c = WebGPUSerializeError::custom("bad value".to_string());
    assert_eq!(c.message(), "bad value");
    assert!(matches!(c.kind, ErrorKind::Custom(_)));
}

#[test]
fn reordered_fields_keep_length_and_change_bytes() {
    let xy = Value::Struct(vec![Value::U32(1), Value::I32(-1)]);
    let yx = Value::Struct(vec![Value::I32(-1), Value::U32(1)]);
    let a = serialize_webgpu(&xy).unwrap();
    let b = serialize_webgpu(&yx).unwrap();
    assert_eq!(a.len(), b.len());
    assert_ne!(a, b);
    assert_eq!(a, vec![1, 0, 0, 0, 0xFF, 0xFF, 0xFF, 0xFF]);
}

#[test]
fn reordered_fields_of_mixed_widths_change_length() {
    let a = Value::Struct(vec![Value::U8(1), Value::U32(2), Value::U8(3)]);
    let b = Value::Struct(vec![Value::U32(2), Value::U8(1), Value::U8(3)]);
    assert_eq!(serialize_webgpu(&a).unwrap().len(), 12);
    assert_eq!(serialize_webgpu(&b).unwrap().len(), 8);
}

#[test]
fn vectors_wrap_arrays() {
    let a: vec2<u32> = [1, 2].into();
    let b: vec3<i32> = vec3::from([1, 2, 3]);
    let c = vec4::from([1.0f32, 2.0, 3.0, 4.0]);
    assert_eq!(a.0, [1, 2]);
    assert_eq!(b.0, [1, 2, 3]);
    assert_eq!(c.0[3], 4.0);
}
