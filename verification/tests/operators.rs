use ort_custom_op::attributes::AttributeValue;
use ort_custom_op::attributes::KernelInfo;
use ort_custom_op::custom_op::build;
use ort_custom_op::custom_op::create_kernel_fallible;
use ort_custom_op::custom_op::kernel_compute_fallible;
use ort_custom_op::element_type::CODE_BOOL;
use ort_custom_op::element_type::CODE_F32;
use ort_custom_op::element_type::CODE_I64;
use ort_custom_op::element_type::CODE_U8;
use ort_custom_op::host::HostData;
use ort_custom_op::host::HostTensor;
use ort_custom_op::host::KernelContext;
use ort_custom_op::ops::add::CustomAdd;
use ort_custom_op::ops::add_constant::AddConstant;
use ort_custom_op::ops::attr_showcase::AttrShowcase;
use ort_custom_op::ops::common::add_scalar_i64_wrapping;
use ort_custom_op::ops::common::add_tensors_i64_wrapping;
use ort_custom_op::ops::common::append_joined;
use ort_custom_op::ops::common::ExampleError;
use ort_custom_op::ops::datetime::ParseDateTime;
use ort_custom_op::ops::fallible_op::FallibleOp;
use ort_custom_op::ops::variadic_identity::VariadicIdentity;
use ort_custom_op::registration::create_custom_op_domain;
use ort_custom_op::registration::Api;
use ort_custom_op::registration::ExecutionProviders;
use ort_custom_op::registration::SessionOptions;
use ort_custom_op::tensor::Tensor;

fn i64_input(data: Vec<i64>, shape: Vec<usize>) -> HostTensor {
    HostTensor { code: CODE_I64, shape, data: HostData::I64(data) }
}

fn f32_input(values: &[f32], shape: Vec<usize>) -> HostTensor {
    HostTensor {
        code: CODE_F32,
        shape,
        data: HostData::F32(values.iter().map(|v| v.to_bits()).collect()),
    }
}

fn no_attrs() -> KernelInfo {
    KernelInfo::from_ort(vec![])
}

#[test]
fn two_input_elementwise_sum_over_a_2_by_3_grid() {
    // The concrete two-input, one-output arithmetic scenario: both inputs
    // have shape [2, 3], one all ones and one all twos, and the output is
    // all threes with the same shape. (The integer instance carries the
    // verified arithmetic; the 32-bit floating-point instance of the same
    // operator lives with the unverified consumers.)
    let kernel = create_kernel_fallible::<CustomAdd<i64>>(&no_attrs()).unwrap();
    let a = i64_input(vec![1; 6], vec![2, 3]);
    let b = i64_input(vec![2; 6], vec![2, 3]);
    let mut ctx = KernelContext::from_raw(vec![a, b], 1);
    kernel_compute_fallible(&kernel, &mut ctx).unwrap();
    match &ctx.outputs[0] {
        Some(HostTensor { code, shape, data: HostData::I64(data) }) => {
            assert_eq!(*code, CODE_I64);
            assert_eq!(*shape, vec![2, 3]);
            assert_eq!(*data, vec![3; 6]);
        },
        other => panic!("expected an i64 output tensor, got {:?}", other),
    }
}

#[test]
fn mismatched_shapes_are_reported_not_read() {
    let kernel = create_kernel_fallible::<CustomAdd<i64>>(&no_attrs()).unwrap();
    let a = i64_input(vec![1; 6], vec![2, 3]);
    let b = i64_input(vec![2; 6], vec![3, 2]);
    let mut ctx = KernelContext::from_raw(vec![a, b], 1);
    let status = kernel_compute_fallible(&kernel, &mut ctx).err().unwrap();
    assert_eq!(status.msg, "CustomAdd: input shapes differ");
}

#[test]
fn wrong_input_kind_is_reported_through_the_pipeline() {
    let info = KernelInfo::from_ort(vec![("constant".to_string(), AttributeValue::I64(1))]);
    let kernel = create_kernel_fallible::<AddConstant>(&info).unwrap();
    let mut ctx = KernelContext::from_raw(vec![f32_input(&[1.0], vec![1])], 1);
    let status = kernel_compute_fallible(&kernel, &mut ctx).err().unwrap();
    assert_eq!(status.msg, "AddConstant: expected 'I64' tensor; found 'F32' tensor");
}

#[test]
fn unsupported_input_code_is_reported_through_the_pipeline() {
    let info = KernelInfo::from_ort(vec![("constant".to_string(), AttributeValue::I64(1))]);
    let kernel = create_kernel_fallible::<AddConstant>(&info).unwrap();
    let opaque = HostTensor { code: 10, shape: vec![1], data: HostData::Opaque(vec![0, 0]) };
    let mut ctx = KernelContext::from_raw(vec![opaque], 1);
    let status = kernel_compute_fallible(&kernel, &mut ctx).err().unwrap();
    assert_eq!(status.msg, "AddConstant: unsupported tensor element type: '10'");
}

#[test]
fn variadic_identity_passes_every_input_through() {
    let kernel = create_kernel_fallible::<VariadicIdentity>(&no_attrs()).unwrap();
    let inputs = vec![
        f32_input(&[1.0, 2.0], vec![2]),
        f32_input(&[3.0], vec![1]),
        f32_input(&[], vec![0]),
    ];
    let mut ctx = KernelContext::from_raw(inputs, 3);
    kernel_compute_fallible(&kernel, &mut ctx).unwrap();
    for (i, expected) in [vec![1.0f32, 2.0], vec![3.0], vec![]].iter().enumerate() {
        match &ctx.outputs[i] {
            Some(HostTensor { code, data: HostData::F32(bits), .. }) => {
                assert_eq!(*code, CODE_F32);
                let floats: Vec<f32> = bits.iter().map(|b| f32::from_bits(*b)).collect();
                assert_eq!(floats, *expected);
            },
            other => panic!("expected an f32 output tensor, got {:?}", other),
        }
    }
}

#[test]
fn fallible_op_rejects_a_true_element() {
    let info = KernelInfo::from_ort(vec![("required_attr".to_string(), AttributeValue::I64(0))]);
    let kernel = create_kernel_fallible::<FallibleOp>(&info).unwrap();
    let input = HostTensor {
        code: CODE_BOOL,
        shape: vec![3],
        data: HostData::Bool(vec![false, true, false]),
    };
    let mut ctx = KernelContext::from_raw(vec![input], 1);
    let status = kernel_compute_fallible(&kernel, &mut ctx).err().unwrap();
    assert_eq!(status.msg, "FallibleOp: non-zero input found");
}

#[test]
fn fallible_op_passes_an_all_false_input_through() {
    let info = KernelInfo::from_ort(vec![("required_attr".to_string(), AttributeValue::I64(0))]);
    let kernel = create_kernel_fallible::<FallibleOp>(&info).unwrap();
    let input = HostTensor {
        code: CODE_BOOL,
        shape: vec![2],
        data: HostData::Bool(vec![false, false]),
    };
    let mut ctx = KernelContext::from_raw(vec![input], 1);
    kernel_compute_fallible(&kernel, &mut ctx).unwrap();
    match &ctx.outputs[0] {
        Some(HostTensor { data: HostData::Bool(data), .. }) => {
            assert_eq!(*data, vec![false, false]);
        },
        other => panic!("expected a bool output tensor, got {:?}", other),
    }
}

#[test]
fn wrapping_arithmetic_wraps_at_the_edges() {
    let t = Tensor { data: vec![i64::MAX, 0], shape: vec![2] };
    let r = add_scalar_i64_wrapping(&t, 1);
    assert_eq!(r.data, vec![i64::MIN, 1]);
    let a = Tensor { data: vec![i64::MIN], shape: vec![1] };
    let b = Tensor { data: vec![-1], shape: vec![1] };
    assert_eq!(add_tensors_i64_wrapping(&a, &b).unwrap().data, vec![i64::MAX]);
    let c = Tensor { data: vec![1i64], shape: vec![1, 1] };
    assert_eq!(add_tensors_i64_wrapping(&a, &c).err(), Some(ExampleError::ShapeMismatch));
}

#[test]
fn attr_showcase_reads_every_attribute_kind() {
    let u8_tensor = HostTensor { code: CODE_U8, shape: vec![2], data: HostData::U8(vec![9, 8]) };
    let info = KernelInfo::from_ort(vec![
        ("float_attr".to_string(), AttributeValue::F32Bits(3.5f32.to_bits())),
        ("int_attr".to_string(), AttributeValue::I64(42)),
        ("string_attr".to_string(), AttributeValue::Text("world".to_string())),
        ("u8_tensor".to_string(), AttributeValue::Tensor(u8_tensor)),
        ("floats_attr".to_string(), AttributeValue::F32BitsArray(vec![1.0f32.to_bits()])),
        ("ints_attr".to_string(), AttributeValue::I64Array(vec![1, 2, 3])),
    ]);
    let k = AttrShowcase::kernel_create(&info).unwrap();
    assert_eq!(f32::from_bits(k.float_attr_bits), 3.5);
    assert_eq!(k.int_attr, 42);
    assert_eq!(k.string_attr, "world");
    assert_eq!(k.u8_tensor.data, vec![9, 8]);
    assert_eq!(k.u8_tensor.shape, vec![2]);
    assert_eq!(k.floats_attr_bits.len(), 1);
    assert_eq!(k.ints_attr, vec![1, 2, 3]);
}

#[test]
fn attr_showcase_fails_without_all_attributes() {
    let info = KernelInfo::from_ort(vec![(
        "float_attr".to_string(),
        AttributeValue::F32Bits(0),
    )]);
    let e = AttrShowcase::kernel_create(&info).err().unwrap();
    assert_eq!(e.message(), "missing attribute 'int_attr'");
}

#[test]
fn string_decoration_appends_the_attribute() {
    let strs = vec!["a".to_string(), "b".to_string()];
    assert_eq!(
        append_joined(&strs, "suffix"),
        vec!["a + suffix".to_string(), "b + suffix".to_string()]
    );
}

#[test]
fn datetimes_parse_against_the_configured_format() {
    let info = KernelInfo::from_ort(vec![(
        "fmt".to_string(),
        AttributeValue::Text("%Y-%m-%d %H:%M:%S".to_string()),
    )]);
    let kernel = ParseDateTime::kernel_create(&info).unwrap();
    let out = kernel.parse_timestamps(&vec![
        "1970-01-01 00:00:01".to_string(),
        "2001-09-09 01:46:40".to_string(),
        "not a datetime".to_string(),
    ]);
    assert_eq!(out, vec![Some(1), Some(1_000_000_000), None]);
}

#[test]
fn datetime_kernel_demands_its_format_attribute() {
    let e = ParseDateTime::kernel_create(&no_attrs()).err().unwrap();
    assert_eq!(e.message(), "missing attribute 'fmt'");
}

#[test]
fn registration_collects_tables_into_a_domain() {
    let api = Api::from_raw(16);
    assert_eq!(api.version, 16);
    assert_eq!(ExecutionProviders::Cpu.provider_name(), "CPUExecutionProvider");
    let mut options = SessionOptions::from_ort();
    let tables = vec![build::<AddConstant>(), build::<CustomAdd<i64>>()];
    create_custom_op_domain(&mut options, "my.domain", tables).unwrap();
    assert_eq!(options.domains.len(), 1);
    assert_eq!(options.domains[0].name, "my.domain");
    assert_eq!(options.domains[0].ops.len(), 2);
    assert_eq!(options.domains[0].ops[0].get_name(), "AddConstant");
}

#[test]
fn operator_tables_answer_the_host_queries() {
    let table = build::<AddConstant>();
    assert_eq!(table.get_name(), "AddConstant");
    assert_eq!(table.get_execution_provider_type(), "CPUExecutionProvider");
    assert_eq!(table.get_input_type_count(), 1);
    assert_eq!(table.get_output_type_count(), 1);
    assert_eq!(table.get_input_type(0), CODE_I64);
    assert_eq!(table.get_output_type(0), CODE_I64);
    assert_eq!(table.get_input_characteristic(0), 0);
    assert_eq!(table.get_variadic_input_min_arity(), 0);
    assert_eq!(table.get_input_memory_type(0), 0);

    let variadic = build::<VariadicIdentity>();
    assert_eq!(variadic.get_input_type_count(), 1);
    assert_eq!(variadic.get_input_characteristic(0), 2);
    assert_eq!(variadic.get_variadic_input_min_arity(), 0);
    assert_eq!(variadic.get_variadic_output_min_arity(), 1);
    assert!(variadic.get_variadic_input_homogeneity());
}
