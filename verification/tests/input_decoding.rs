use ort_custom_op::element_type::ElementType;
use ort_custom_op::inputs::Characteristic;
use ort_custom_op::inputs::InputSignature;
use ort_custom_op::inputs::VariadicSlot;
use ort_custom_op::tensor::Tensor;
use ort_custom_op::value::Value;
use ort_custom_op::OpError;

fn i64_scalar(v: i64) -> Value {
    Value::TensorI64(Tensor { data: vec![v], shape: vec![] })
}

fn f32_scalar(v: f32) -> Value {
    Value::TensorF32(Tensor { data: vec![v.to_bits()], shape: vec![] })
}

fn variadic_sig(min_arity: usize) -> InputSignature {
    InputSignature {
        positional: vec![ElementType::I64],
        variadic: Some(VariadicSlot { element_type: ElementType::I64, min_arity }),
    }
}

#[test]
fn too_few_values_for_the_minimum_arity_fail() {
    // One positional slot plus a tail of minimum arity two: supplying
    // fewer than three values in all is an arity error.
    let sig = variadic_sig(2);
    for n in 0..3usize {
        let values: Vec<Value> = (0..n).map(|i| i64_scalar(i as i64)).collect();
        match sig.try_from_values(values) {
            Err(OpError::ArityError { minimum, exact, found }) => {
                assert_eq!(minimum, 3);
                assert!(!exact);
                assert_eq!(found, n);
            },
            other => panic!("expected an arity error, got {:?}", other),
        }
    }
}

#[test]
fn minimum_and_above_succeed_with_the_whole_tail() {
    // Exactly the minimum, and five more than the minimum, both succeed,
    // and the decoded tail holds every value past the fixed prefix.
    let sig = variadic_sig(2);
    for n in [3usize, 8] {
        let values: Vec<Value> = (0..n).map(|i| i64_scalar(i as i64)).collect();
        let inputs = sig.try_from_values(values).unwrap();
        assert_eq!(inputs.positional.len(), 1);
        assert_eq!(inputs.variadic.len(), n - 1);
    }
}

#[test]
fn fixed_signature_demands_the_exact_count() {
    let sig = InputSignature {
        positional: vec![ElementType::I64, ElementType::I64],
        variadic: None,
    };
    assert!(sig.try_from_values(vec![i64_scalar(1), i64_scalar(2)]).is_ok());
    match sig.try_from_values(vec![i64_scalar(1)]) {
        Err(OpError::ArityError { minimum, exact, found }) => {
            assert_eq!(minimum, 2);
            assert!(exact);
            assert_eq!(found, 1);
        },
        other => panic!("expected an arity error, got {:?}", other),
    }
}

#[test]
fn wrong_kind_is_a_type_mismatch_not_a_coercion() {
    // A value tagged I32 through a slot statically typed F32 fails with a
    // mismatch naming both kinds.
    let sig = InputSignature { positional: vec![ElementType::F32], variadic: None };
    let v = Value::TensorI32(Tensor { data: vec![5], shape: vec![] });
    match sig.try_from_values(vec![v]) {
        Err(OpError::TypeMismatch { expected, found }) => {
            assert_eq!(expected, ElementType::F32);
            assert_eq!(found, ElementType::I32);
        },
        other => panic!("expected a type mismatch, got {:?}", other),
    }
}

#[test]
fn mismatch_in_the_tail_names_the_tail_kind() {
    let sig = variadic_sig(0);
    let values = vec![i64_scalar(0), i64_scalar(1), f32_scalar(2.0)];
    match sig.try_from_values(values) {
        Err(OpError::TypeMismatch { expected, found }) => {
            assert_eq!(expected, ElementType::I64);
            assert_eq!(found, ElementType::F32);
        },
        other => panic!("expected a type mismatch, got {:?}", other),
    }
}

#[test]
fn arity_is_checked_before_kinds() {
    let sig = InputSignature { positional: vec![ElementType::F32], variadic: None };
    match sig.try_from_values(vec![i64_scalar(1), i64_scalar(2)]) {
        Err(OpError::ArityError { .. }) => {},
        other => panic!("expected an arity error, got {:?}", other),
    }
}

#[test]
fn slot_metadata_reports_the_declaration() {
    let sig = variadic_sig(2);
    assert_eq!(sig.slot_count(), 2);
    assert_eq!(sig.characteristic(0), Characteristic::Required);
    assert_eq!(sig.characteristic(1), Characteristic::Variadic);
    assert_eq!(sig.tensor_data_type(0), ElementType::I64);
    assert_eq!(sig.tensor_data_type(1), ElementType::I64);
    assert_eq!(Characteristic::Required.to_ort_encoding(), 0);
    assert_eq!(Characteristic::Optional.to_ort_encoding(), 1);
    assert_eq!(Characteristic::Variadic.to_ort_encoding(), 2);
}

#[test]
fn error_messages_render_counts_and_kinds() {
    let arity = OpError::ArityError { minimum: 3, exact: false, found: 1 };
    assert_eq!(arity.message(), "expected at least 3 inputs; found 1");
    let exact = OpError::ArityError { minimum: 2, exact: true, found: 5 };
    assert_eq!(exact.message(), "expected 2 inputs; found 5");
    let mismatch = OpError::TypeMismatch { expected: ElementType::F32, found: ElementType::I32 };
    assert_eq!(mismatch.message(), "expected 'F32' tensor; found 'I32' tensor");
    let unsupported = OpError::UnsupportedElementType { code: 42 };
    assert_eq!(unsupported.message(), "unsupported tensor element type: '42'");
    let missing = OpError::AttributeMissing { name: "constant".to_string() };
    assert_eq!(missing.message(), "missing attribute 'constant'");
    let wrong_type = OpError::AttributeTypeError { name: "fmt".to_string() };
    assert_eq!(wrong_type.message(), "attribute 'fmt' has the wrong type");
    let utf8 = OpError::InvalidUtf8 { index: 2 };
    assert_eq!(utf8.message(), "string tensor element 2 is not valid UTF-8");
    assert_eq!(
        OpError::StringDataTooLarge.message(),
        "string tensor data does not fit in one buffer"
    );
}
