use ort_custom_op::attributes::AttributeValue;
use ort_custom_op::attributes::KernelInfo;
use ort_custom_op::custom_op::create_kernel_fallible;
use ort_custom_op::custom_op::kernel_compute_fallible;
use ort_custom_op::custom_op::kernel_destroy;
use ort_custom_op::element_type::CODE_I64;
use ort_custom_op::error::RUNTIME_EXCEPTION_CODE;
use ort_custom_op::host::HostData;
use ort_custom_op::host::HostTensor;
use ort_custom_op::host::KernelContext;
use ort_custom_op::lifecycle::run_events;
use ort_custom_op::lifecycle::step;
use ort_custom_op::lifecycle::LifecycleEvent;
use ort_custom_op::lifecycle::LifecycleState;
use ort_custom_op::ops::add_constant::AddConstant;
use ort_custom_op::ops::fallible_op::FallibleOp;

fn i64_input(data: Vec<i64>, shape: Vec<usize>) -> HostTensor {
    HostTensor { code: CODE_I64, shape, data: HostData::I64(data) }
}

#[test]
fn failed_create_blocks_compute_and_destroy() {
    // The node carries no `required_attr`, so construction fails; the
    // harness counts how often the later lifecycle calls were reached.
    let info = KernelInfo::from_ort(vec![]);
    let mut compute_calls = 0;
    let mut destroy_calls = 0;
    match create_kernel_fallible::<FallibleOp>(&info) {
        Ok(kernel) => {
            let mut ctx = KernelContext::from_raw(vec![], 1);
            let _ = kernel_compute_fallible(&kernel, &mut ctx);
            compute_calls += 1;
            kernel_destroy(kernel);
            destroy_calls += 1;
        },
        Err(status) => {
            assert_eq!(status.code, RUNTIME_EXCEPTION_CODE);
            assert_eq!(status.msg, "FallibleOp: missing attribute 'required_attr'");
        },
    }
    assert_eq!(compute_calls, 0);
    assert_eq!(destroy_calls, 0);
}

#[test]
fn lifecycle_rejects_calls_after_failed_create() {
    for bad in [LifecycleEvent::Compute, LifecycleEvent::Destroy] {
        let trace = vec![LifecycleEvent::CreateErr, bad];
        assert_eq!(run_events(LifecycleState::Unconstructed, &trace), None);
    }
}

#[test]
fn lifecycle_accepts_computes_then_one_destroy() {
    let trace = vec![
        LifecycleEvent::CreateOk,
        LifecycleEvent::Compute,
        LifecycleEvent::Compute,
        LifecycleEvent::Destroy,
    ];
    assert_eq!(
        run_events(LifecycleState::Unconstructed, &trace),
        Some(LifecycleState::Destroyed)
    );
}

#[test]
fn lifecycle_rejects_double_destroy_and_compute_after_destroy() {
    assert_eq!(step(LifecycleState::Destroyed, LifecycleEvent::Destroy), None);
    assert_eq!(step(LifecycleState::Destroyed, LifecycleEvent::Compute), None);
    assert_eq!(step(LifecycleState::Unconstructed, LifecycleEvent::Compute), None);
    assert_eq!(step(LifecycleState::Ready, LifecycleEvent::CreateOk), None);
}

#[test]
fn missing_attribute_status_names_operator_and_attribute() {
    // A required integer attribute that is absent must surface as a
    // construction-time status carrying both names.
    let info = KernelInfo::from_ort(vec![]);
    let status = create_kernel_fallible::<AddConstant>(&info).err().unwrap();
    assert_eq!(status.code, RUNTIME_EXCEPTION_CODE);
    assert_eq!(status.msg, "AddConstant: missing attribute 'constant'");
    assert!(status.msg.contains("AddConstant"));
    assert!(status.msg.contains("constant"));
}

#[test]
fn wrongly_typed_attribute_is_a_type_error() {
    let info = KernelInfo::from_ort(vec![(
        "constant".to_string(),
        AttributeValue::Text("five".to_string()),
    )]);
    let status = create_kernel_fallible::<AddConstant>(&info).err().unwrap();
    assert_eq!(status.msg, "AddConstant: attribute 'constant' has the wrong type");
}

#[test]
fn successful_create_computes_and_destroys() {
    let info = KernelInfo::from_ort(vec![("constant".to_string(), AttributeValue::I64(5))]);
    let kernel = create_kernel_fallible::<AddConstant>(&info).unwrap();
    let mut ctx = KernelContext::from_raw(vec![i64_input(vec![1, 2, 3], vec![3])], 1);
    kernel_compute_fallible(&kernel, &mut ctx).unwrap();
    match &ctx.outputs[0] {
        Some(HostTensor { code, shape, data: HostData::I64(data) }) => {
            assert_eq!(*code, CODE_I64);
            assert_eq!(*shape, vec![3]);
            assert_eq!(*data, vec![6, 7, 8]);
        },
        other => panic!("expected an i64 output tensor, got {:?}", other),
    }
    kernel_destroy(kernel);
}
