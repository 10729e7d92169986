use serde_webgpu::{serialize_webgpu, serialize_webgpu_buffer, Value};

fn f32v(x: f32) -> Value {
    Value::F32(x.to_bits())
}

fn vec4f(a: [f32; 4]) -> Value {
    Value::TupleStruct(b"vec4@f32".to_vec(), a.iter().map(|x| f32v(*x)).collect())
}

fn uniform() -> Value {
    let bits = half::f16::from_f32(123.456).to_bits();
    Value::Struct(vec![
        Value::NewtypeStruct(b"f16".to_vec(), Box::new(Value::U16(bits))),
        Value::Tuple(vec![
            vec4f([1.0, 2.0, 3.0, 4.0]),
            vec4f([4.0, 5.0, 7.0, 8.0]),
            vec4f([1.0, 2.0, 3.0, 4.0]),
            vec4f([5.0, 6.0, 7.0, 8.0]),
        ]),
    ])
}

#[test]
fn base() {
    let buffer = serialize_webgpu_buffer(&uniform()).unwrap();
    println!("{:#?}", buffer);
    assert_eq!(buffer.len(), 80);
    let bits = half::f16::from_f32(123.456).to_bits();
    assert_eq!(&buffer[0..2], &bits.to_le_bytes());
    assert!(buffer[2..16].iter().all(|b| *b == 0));
    let floats = [1.0f32, 2.0, 3.0, 4.0, 4.0, 5.0, 7.0, 8.0, 1.0, 2.0, 3.0, 4.0, 5.0, 6.0, 7.0, 8.0];
    for (i, x) in floats.iter().enumerate() {
        assert_eq!(&buffer[16 + 4 * i..20 + 4 * i], &x.to_le_bytes());
    }
}

#[test]
fn base_without_trailing_padding() {
    let plain = serialize_webgpu(&uniform()).unwrap();
    let buffer = serialize_webgpu_buffer(&uniform()).unwrap();
    assert_eq!(plain.len(), 80);
    assert_eq!(plain, buffer);
}
