use ort_custom_op::host::decode_value;
use ort_custom_op::host::encode_value;
use ort_custom_op::inputs::InputSignature;
use ort_custom_op::tensor::Tensor;
use ort_custom_op::tensor::TensorString;
use ort_custom_op::value::Value;

fn all_values() -> Vec<Value> {
    vec![
        Value::TensorBool(Tensor { data: vec![true, false, true], shape: vec![3] }),
        Value::TensorF32(Tensor {
            data: vec![1.0f32.to_bits(), (-2.5f32).to_bits(), f32::NAN.to_bits()],
            shape: vec![3],
        }),
        Value::TensorF64(Tensor {
            data: vec![1.25f64.to_bits(), f64::INFINITY.to_bits()],
            shape: vec![2],
        }),
        Value::TensorI8(Tensor { data: vec![-1i8, 2], shape: vec![2] }),
        Value::TensorI16(Tensor { data: vec![-300i16, 300], shape: vec![2] }),
        Value::TensorI32(Tensor { data: vec![i32::MIN, i32::MAX], shape: vec![2] }),
        Value::TensorI64(Tensor { data: vec![i64::MIN, 0, i64::MAX], shape: vec![3] }),
        Value::TensorU8(Tensor { data: vec![0u8, 255], shape: vec![2] }),
        Value::TensorU16(Tensor { data: vec![0u16, 65535], shape: vec![2] }),
        Value::TensorU32(Tensor { data: vec![7u32], shape: vec![1] }),
        Value::TensorU64(Tensor { data: vec![u64::MAX, 1], shape: vec![2, 1] }),
        Value::TensorStr(
            TensorString::from_strings(
                &vec!["".to_string(), "ab".to_string(), "c".to_string()],
                vec![3],
            )
            .unwrap(),
        ),
    ]
}

#[test]
fn every_kind_survives_the_host_round_trip() {
    // Encode each value into the host's type-erased form and decode it
    // back: contents and shape must be bit-identical.
    for v in all_values() {
        let host = encode_value(v.clone());
        assert_eq!(host.code, v.element_type().to_ort_encoding());
        let back = decode_value(host).unwrap();
        assert_eq!(back, v);
    }
}

#[test]
fn every_kind_survives_decoding_through_inputs() {
    // The same round trip, but the decoded value is additionally pulled
    // through an input signature whose single slot expects its kind.
    for v in all_values() {
        let sig = InputSignature { positional: vec![v.element_type()], variadic: None };
        let host = encode_value(v.clone());
        let back = decode_value(host).unwrap();
        let inputs = sig.try_from_values(vec![back]).unwrap();
        assert_eq!(inputs.positional, vec![v.clone()]);
        assert_eq!(inputs.variadic, Vec::<Value>::new());
    }
}

#[test]
fn typed_extraction_returns_the_payload() {
    let t = Tensor { data: vec![1i32, 2, 3], shape: vec![3] };
    let v = Value::TensorI32(t.clone());
    assert_eq!(v.try_into_i32().unwrap(), t);
}

#[test]
fn f32_bits_are_preserved_exactly() {
    let bits = vec![1.0f32.to_bits(), 2.0f32.to_bits()];
    let v = Value::TensorF32(Tensor { data: bits.clone(), shape: vec![2] });
    let back = decode_value(encode_value(v)).unwrap();
    let t = back.try_into_f32_bits().unwrap();
    assert_eq!(t.data, bits);
    assert_eq!(f32::from_bits(t.data[0]), 1.0);
    assert_eq!(f32::from_bits(t.data[1]), 2.0);
}
