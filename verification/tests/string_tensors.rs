use ort_custom_op::tensor::element_count;
use ort_custom_op::tensor::Tensor;
use ort_custom_op::tensor::TensorString;
use ort_custom_op::OpError;

#[test]
fn concatenated_buffer_and_offsets() {
    // An empty string contributes a zero-width span.
    let strs = vec!["".to_string(), "ab".to_string(), "c".to_string()];
    let t = TensorString::from_strings(&strs, vec![3]).unwrap();
    assert_eq!(t.buf, b"abc".to_vec());
    assert_eq!(t.offsets, vec![0, 0, 2]);
    assert_eq!(t.shape, vec![3]);
}

#[test]
fn string_round_trip() {
    let strs = vec!["".to_string(), "ab".to_string(), "c".to_string()];
    let t = TensorString::from_strings(&strs, vec![3]).unwrap();
    assert_eq!(t.strings().unwrap(), strs);
    assert_eq!(t.vec_of_strs(), strs);
}

#[test]
fn string_round_trip_multibyte() {
    let strs = vec!["grüße".to_string(), "日本".to_string(), "".to_string()];
    let t = TensorString::from_strings(&strs, vec![3, 1]).unwrap();
    assert_eq!(t.strings().unwrap(), strs);
}

#[test]
fn from_strings_rejects_wrong_shape() {
    let strs = vec!["a".to_string(), "b".to_string()];
    assert!(TensorString::from_strings(&strs, vec![3]).is_none());
}

#[test]
fn invalid_utf8_fails_loudly_in_strings() {
    // Element 1 is a lone continuation byte: not valid UTF-8.
    let t = TensorString {
        buf: vec![b'o', b'k', 0x80, b'x'],
        offsets: vec![0, 2, 3],
        shape: vec![3],
    };
    match t.strings() {
        Err(OpError::InvalidUtf8 { index }) => assert_eq!(index, 1),
        other => panic!("expected an invalid-UTF-8 failure, got {:?}", other),
    }
}

#[test]
fn invalid_utf8_is_dropped_by_vec_of_strs() {
    // The permissive decoder silently drops the undecodable element, so
    // the result holds fewer strings than the tensor has elements. This
    // degraded count is why `strings` is the decoder the pipeline uses.
    let t = TensorString {
        buf: vec![b'o', b'k', 0x80, b'x'],
        offsets: vec![0, 2, 3],
        shape: vec![3],
    };
    assert_eq!(t.vec_of_strs(), vec!["ok".to_string(), "x".to_string()]);
}

#[test]
fn element_count_multiplies_dimensions() {
    assert_eq!(element_count(&vec![]), Some(1));
    assert_eq!(element_count(&vec![2, 3]), Some(6));
    assert_eq!(element_count(&vec![2, 0, 7]), Some(0));
    assert_eq!(element_count(&vec![usize::MAX, 2]), None);
    assert_eq!(element_count(&vec![usize::MAX, 2, 0]), Some(0));
}

#[test]
fn tensor_from_parts_checks_the_shape() {
    assert!(Tensor::from_parts(vec![1i64, 2, 3], vec![3]).is_some());
    assert!(Tensor::from_parts(vec![1i64, 2, 3], vec![2, 2]).is_none());
}
