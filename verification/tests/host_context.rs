use ort_custom_op::element_type::CODE_I32;
use ort_custom_op::element_type::CODE_STRING;
use ort_custom_op::element_type::ElementType;
use ort_custom_op::error::status_to_result;
use ort_custom_op::error::u64_to_decimal;
use ort_custom_op::host::HostData;
use ort_custom_op::host::HostTensor;
use ort_custom_op::host::KernelContext;
use ort_custom_op::host::TensorTypeAndShapeInfo;
use ort_custom_op::inputs::InputSignature;
use ort_custom_op::outputs::Outputs;
use ort_custom_op::tensor::shapes_equal;
use ort_custom_op::tensor::Tensor;
use ort_custom_op::tensor::TensorString;
use ort_custom_op::value::TryFromValue;
use ort_custom_op::value::Value;
use ort_custom_op::ErrorStatus;
use ort_custom_op::OpError;

fn i32_input(data: Vec<i32>, shape: Vec<usize>) -> HostTensor {
    HostTensor { code: CODE_I32, shape, data: HostData::I32(data) }
}

#[test]
fn context_counts_and_borrows_inputs() {
    let ctx = KernelContext::from_raw(
        vec![i32_input(vec![1, 2], vec![2]), i32_input(vec![3], vec![1])],
        4,
    );
    assert_eq!(ctx.get_input_count(), 2);
    assert_eq!(ctx.get_output_count(), 4);
    assert_eq!(ctx.get_input(1).code, CODE_I32);
    let v = ctx.get_input_value(0).unwrap();
    assert_eq!(v, Value::TensorI32(Tensor { data: vec![1, 2], shape: vec![2] }));
}

#[test]
fn output_handles_fill_their_slot() {
    let mut ctx = KernelContext::from_raw(vec![], 2);
    let slot = ctx.get_safe_output(1);
    let v = Value::TensorI32(Tensor { data: vec![7], shape: vec![1] });
    slot.fill(&mut ctx, v).unwrap();
    assert!(ctx.outputs[0].is_none());
    match &ctx.outputs[1] {
        Some(HostTensor { code, data: HostData::I32(data), .. }) => {
            assert_eq!(*code, CODE_I32);
            assert_eq!(*data, vec![7]);
        },
        other => panic!("expected an i32 output tensor, got {:?}", other),
    }
}

#[test]
fn more_outputs_than_slots_is_an_error() {
    let mut ctx = KernelContext::from_raw(vec![], 1);
    let value = |n: i32| Value::TensorI32(Tensor { data: vec![n], shape: vec![1] });
    let outputs = Outputs { values: vec![value(1), value(2)] };
    match outputs.write_to_ort(&mut ctx) {
        Err(OpError::OutputIndexOutOfRange { index, count }) => {
            assert_eq!(index, 1);
            assert_eq!(count, 1);
        },
        other => panic!("expected an output-slot error, got {:?}", other),
    }
    assert_eq!(
        OpError::OutputIndexOutOfRange { index: 1, count: 1 }.message(),
        "no output slot 1: the host declared 1 outputs"
    );
}

#[test]
fn fill_string_tensor_builds_the_concatenated_form() {
    let mut ctx = KernelContext::from_raw(vec![], 1);
    let strings = vec!["ab".to_string(), "".to_string(), "c".to_string()];
    ctx.fill_string_tensor(0, &strings, vec![3]).unwrap();
    match &ctx.outputs[0] {
        Some(HostTensor { code, shape, data: HostData::Str { buf, offsets } }) => {
            assert_eq!(*code, CODE_STRING);
            assert_eq!(*shape, vec![3]);
            assert_eq!(*buf, b"abc".to_vec());
            assert_eq!(*offsets, vec![0, 2, 2]);
        },
        other => panic!("expected a string output tensor, got {:?}", other),
    }
}

#[test]
fn fill_string_tensor_demands_the_declared_count() {
    let mut ctx = KernelContext::from_raw(vec![], 1);
    let strings = vec!["a".to_string(), "b".to_string()];
    match ctx.fill_string_tensor(0, &strings, vec![3]) {
        Err(OpError::StringCountMismatch { expected, found }) => {
            assert_eq!(expected, 3);
            assert_eq!(found, 2);
        },
        other => panic!("expected a count mismatch, got {:?}", other),
    }
    assert_eq!(
        OpError::StringCountMismatch { expected: 3, found: 2 }.message(),
        "string tensor shape holds 3 elements; found 2 strings"
    );
    match ctx.fill_string_tensor(4, &strings, vec![2]) {
        Err(OpError::OutputIndexOutOfRange { index, count }) => {
            assert_eq!(index, 4);
            assert_eq!(count, 1);
        },
        other => panic!("expected an output-slot error, got {:?}", other),
    }
    assert!(ctx.outputs[0].is_none());
}

#[test]
fn well_formedness_is_decidable_at_run_time() {
    let good = TensorString { buf: b"abc".to_vec(), offsets: vec![0, 0, 2], shape: vec![3] };
    assert!(good.check_wf());
    let backwards = TensorString { buf: b"abc".to_vec(), offsets: vec![0, 2, 1], shape: vec![3] };
    assert!(!backwards.check_wf());
    let past_end = TensorString { buf: b"ab".to_vec(), offsets: vec![0, 5], shape: vec![2] };
    assert!(!past_end.check_wf());
    let wrong_count = TensorString { buf: b"ab".to_vec(), offsets: vec![0, 1], shape: vec![3] };
    assert!(!wrong_count.check_wf());
    let nonzero_start = TensorString { buf: b"ab".to_vec(), offsets: vec![1, 2], shape: vec![2] };
    assert!(!nonzero_start.check_wf());

    let good_host = i32_input(vec![1, 2, 3], vec![3]);
    assert!(good_host.check_wf());
    let short_host = i32_input(vec![1, 2], vec![3]);
    assert!(!short_host.check_wf());
    let wrong_code = HostTensor { code: 99, shape: vec![1], data: HostData::I32(vec![5]) };
    assert!(!wrong_code.check_wf());
    let opaque = HostTensor { code: 10, shape: vec![1], data: HostData::Opaque(vec![0, 0]) };
    assert!(opaque.check_wf());
    let opaque_supported =
        HostTensor { code: CODE_I32, shape: vec![1], data: HostData::Opaque(vec![0]) };
    assert!(!opaque_supported.check_wf());
}

#[test]
fn shape_info_reports_kind_and_dimensions() {
    let t = i32_input(vec![0; 6], vec![2, 3]);
    let info = TensorTypeAndShapeInfo::from_tensor(&t);
    assert_eq!(info.shape(), &vec![2, 3]);
    assert_eq!(info.get_dimensions(), vec![2i64, 3]);
    assert_eq!(info.get_tensor_shape_element_count(), Some(6));
    assert!(matches!(info.get_tensor_element_type(), Ok(ElementType::I32)));
    let odd = TensorTypeAndShapeInfo { code: 99, shape: vec![] };
    assert!(matches!(
        odd.get_tensor_element_type(),
        Err(OpError::UnsupportedElementType { code: 99 })
    ));
}

#[test]
fn typed_extraction_through_the_trait() {
    let sig = InputSignature {
        positional: vec![ElementType::I32, ElementType::U8],
        variadic: None,
    };
    let a = Value::TensorI32(Tensor { data: vec![5], shape: vec![1] });
    let b = Value::TensorU8(Tensor { data: vec![9], shape: vec![1] });
    let inputs = sig.try_from_values(vec![a, b]).unwrap();
    let (ta, tb): (Tensor<i32>, Tensor<u8>) = inputs.into_2_arrays();
    assert_eq!(ta.data, vec![5]);
    assert_eq!(tb.data, vec![9]);
    let wrong = <Tensor<i64> as TryFromValue>::try_from_value(Value::TensorU8(Tensor {
        data: vec![1],
        shape: vec![1],
    }));
    assert!(matches!(
        wrong,
        Err(OpError::TypeMismatch { expected: ElementType::I64, found: ElementType::U8 })
    ));
}

#[test]
fn status_helpers_behave_like_the_host_convention() {
    assert!(status_to_result(None).is_ok());
    let status = ErrorStatus::new(6, "boom".to_string());
    let back = status_to_result(Some(status)).err().unwrap();
    assert_eq!(back.code, 6);
    assert_eq!(back.msg, "boom");
}

#[test]
fn decimal_rendering_matches_std() {
    for n in [0u64, 1, 9, 10, 105, 99999, u64::MAX] {
        assert_eq!(u64_to_decimal(n), n.to_string());
    }
}

#[test]
fn shape_comparison_is_exact() {
    assert!(shapes_equal(&vec![2, 3], &vec![2, 3]));
    assert!(!shapes_equal(&vec![2, 3], &vec![3, 2]));
    assert!(!shapes_equal(&vec![2, 3], &vec![2, 3, 1]));
    assert!(shapes_equal(&vec![], &vec![]));
}
