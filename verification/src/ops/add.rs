//! An operator that adds its two equally-shaped inputs element by element.
//! The struct is generic over the element type; the kernel here works over
//! `i64` elements (floating-point instances belong to unverified consumers,
//! which carry the arithmetic themselves).

use vstd::prelude::*;
use vstd::string::StringExecFns;

use crate::attributes::KernelInfo;
use crate::custom_op::CustomOp;
use crate::custom_op::OpSignature;
use crate::custom_op::SigModel;
use crate::element_type::ElementType;
use crate::inputs::InputSignature;
use crate::inputs::Inputs;
use crate::ops::common::add_tensors_i64_wrapping;
use crate::ops::common::ExampleError;
use crate::outputs::OutputSignature;
use crate::outputs::Outputs;
use crate::tensor::Tensor;
use crate::value::Value;

verus! {

/// An element-wise addition operator over tensors of `T`.
#[derive(Debug)]
pub struct CustomAdd<T> {
    pub ty: core::marker::PhantomData<T>,
}

impl CustomOp for CustomAdd<i64> {
    type KernelCreateError = core::convert::Infallible;

    type ComputeError = ExampleError;

    open spec fn spec_signature() -> SigModel {
        SigModel {
            name: "CustomAdd"@,
            version: 1,
            input_positional: seq![ElementType::I64, ElementType::I64],
            input_variadic: None,
            output_positional: seq![ElementType::I64],
            output_variadic: None,
        }
    }

    proof fn signature_wf() {
    }

    fn signature() -> (s: OpSignature) {
        let mut input_positional: Vec<ElementType> = Vec::new();
        input_positional.push(ElementType::I64);
        input_positional.push(ElementType::I64);
        let mut output_positional: Vec<ElementType> = Vec::new();
        output_positional.push(ElementType::I64);
        let s = OpSignature {
            name: String::from_str("CustomAdd"),
            version: 1,
            inputs: InputSignature { positional: input_positional, variadic: None },
            outputs: OutputSignature { positional: output_positional, variadic: None },
        };
        proof {
            assert(s.model().input_positional =~= seq![ElementType::I64, ElementType::I64]);
            assert(s.model().output_positional =~= seq![ElementType::I64]);
        }
        s
    }

    /// Construction is stateless and cannot fail.
    fn kernel_create(info: &KernelInfo) -> (r: Result<Self, core::convert::Infallible>)
        ensures
            r is Ok,
    {
        let _ = info;
        Ok(CustomAdd { ty: core::marker::PhantomData })
    }

    /// Add the two inputs element by element, wrapping on overflow; the
    /// output keeps their common shape. Two inputs of different shapes are
    /// rejected with a shape-mismatch error rather than read out of
    /// bounds.
    fn kernel_compute(&self, inputs: Inputs) -> (r: Result<Outputs, ExampleError>)
        ensures
            ({
                let va = inputs.positional@[0];
                let vb = inputs.positional@[1];
                match (va, vb) {
                    (Value::TensorI64(a), Value::TensorI64(b)) => {
                        if a.shape@ == b.shape@ {
                            r matches Ok(o) && {
                                &&& o.values@.len() == 1
                                &&& o.values@[0] matches Value::TensorI64(c) && {
                                    &&& c.shape@ == a.shape@
                                    &&& c.data@.len() == a.data@.len()
                                    &&& forall|i: int|
                                        #![trigger c.data@[i]]
                                        0 <= i < a.data@.len() ==> c.data@[i]
                                            == vstd::wrapping::i64_specs::wrapping_add(
                                            a.data@[i],
                                            b.data@[i],
                                        )
                                }
                            }
                        } else {
                            r == Err::<Outputs, ExampleError>(ExampleError::ShapeMismatch)
                        }
                    },
                    _ => true,
                }
            }),
    {
        let (ta, tb): (Tensor<i64>, Tensor<i64>) = inputs.into_2_arrays();
        match add_tensors_i64_wrapping(&ta, &tb) {
            Ok(out) => {
                let mut values: Vec<Value> = Vec::new();
                values.push(Value::TensorI64(out));
                Ok(Outputs { values })
            },
            Err(e) => Err(e),
        }
    }
}

} // verus!
