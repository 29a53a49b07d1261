use ort_custom_op::element_type::ElementType;
use ort_custom_op::element_type::CODE_BOOL;
use ort_custom_op::element_type::CODE_F32;
use ort_custom_op::element_type::CODE_F64;
use ort_custom_op::element_type::CODE_I16;
use ort_custom_op::element_type::CODE_I32;
use ort_custom_op::element_type::CODE_I64;
use ort_custom_op::element_type::CODE_I8;
use ort_custom_op::element_type::CODE_STRING;
use ort_custom_op::element_type::CODE_U16;
use ort_custom_op::element_type::CODE_U32;
use ort_custom_op::element_type::CODE_U64;
use ort_custom_op::element_type::CODE_U8;

const ALL_KINDS: [ElementType; 12] = [
    ElementType::Bool,
    ElementType::F32,
    ElementType::F64,
    ElementType::I8,
    ElementType::I16,
    ElementType::I32,
    ElementType::I64,
    ElementType::U8,
    ElementType::U16,
    ElementType::U32,
    ElementType::U64,
    ElementType::Utf8,
];

#[test]
fn encoding_matches_host_codes() {
    assert_eq!(ElementType::Bool.to_ort_encoding(), CODE_BOOL);
    assert_eq!(ElementType::F32.to_ort_encoding(), CODE_F32);
    assert_eq!(ElementType::F64.to_ort_encoding(), CODE_F64);
    assert_eq!(ElementType::I8.to_ort_encoding(), CODE_I8);
    assert_eq!(ElementType::I16.to_ort_encoding(), CODE_I16);
    assert_eq!(ElementType::I32.to_ort_encoding(), CODE_I32);
    assert_eq!(ElementType::I64.to_ort_encoding(), CODE_I64);
    assert_eq!(ElementType::U8.to_ort_encoding(), CODE_U8);
    assert_eq!(ElementType::U16.to_ort_encoding(), CODE_U16);
    assert_eq!(ElementType::U32.to_ort_encoding(), CODE_U32);
    assert_eq!(ElementType::U64.to_ort_encoding(), CODE_U64);
    assert_eq!(ElementType::Utf8.to_ort_encoding(), CODE_STRING);
    assert_eq!(CODE_F32, 1);
    assert_eq!(CODE_STRING, 8);
    assert_eq!(CODE_F64, 11);
}

#[test]
fn encoding_round_trips_for_every_kind() {
    for kind in ALL_KINDS {
        let code = kind.to_ort_encoding();
        assert_eq!(ElementType::try_from_ort_encoding(code), Ok(kind));
    }
}

#[test]
fn unsupported_codes_are_rejected() {
    // 0 is the host's "undefined", 10 is a half-width float this layer
    // does not know, 14 a complex kind, 99 is out of every range.
    for code in [0u32, 10, 14, 16, 99] {
        assert_eq!(ElementType::try_from_ort_encoding(code), Err(code));
    }
}

#[test]
fn kind_names_render() {
    assert_eq!(ElementType::F32.kind_name(), "F32");
    assert_eq!(ElementType::Utf8.kind_name(), "String");
}
