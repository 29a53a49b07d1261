//! An operator that demands an attribute at construction and fails its
//! compute call on demand: any true element in its `bool` input is reported
//! as an error, and an all-false input passes through unchanged.

use vstd::prelude::*;
use vstd::string::StringExecFns;

use crate::attributes::KernelInfo;
use crate::custom_op::CustomOp;
use crate::custom_op::OpSignature;
use crate::custom_op::SigModel;
use crate::element_type::ElementType;
use crate::error::OpError;
use crate::inputs::InputSignature;
use crate::inputs::Inputs;
use crate::ops::common::any_true;
use crate::ops::common::ExampleError;
use crate::outputs::OutputSignature;
use crate::outputs::Outputs;
use crate::tensor::Tensor;
use crate::value::Value;

verus! {

/// The fallible operator; its construction requires the node to carry the
/// integer attribute `required_attr`.
#[derive(Debug)]
pub struct FallibleOp;

impl CustomOp for FallibleOp {
    type KernelCreateError = OpError;

    type ComputeError = ExampleError;

    open spec fn spec_signature() -> SigModel {
        SigModel {
            name: "FallibleOp"@,
            version: 1,
            input_positional: seq![ElementType::Bool],
            input_variadic: None,
            output_positional: seq![ElementType::Bool],
            output_variadic: None,
        }
    }

    proof fn signature_wf() {
    }

    fn signature() -> (s: OpSignature) {
        let mut input_positional: Vec<ElementType> = Vec::new();
        input_positional.push(ElementType::Bool);
        let mut output_positional: Vec<ElementType> = Vec::new();
        output_positional.push(ElementType::Bool);
        let s = OpSignature {
            name: String::from_str("FallibleOp"),
            version: 1,
            inputs: InputSignature { positional: input_positional, variadic: None },
            outputs: OutputSignature { positional: output_positional, variadic: None },
        };
        proof {
            assert(s.model().input_positional =~= seq![ElementType::Bool]);
            assert(s.model().output_positional =~= seq![ElementType::Bool]);
        }
        s
    }

    /// Demand the `required_attr` attribute; a node without it, or with it
    /// under another type, never yields a kernel.
    fn kernel_create(info: &KernelInfo) -> (r: Result<Self, OpError>)
        ensures
            match r {
                Ok(_) => info.spec_find("required_attr"@) matches Some(a) && a is I64,
                Err(e) => match info.spec_find("required_attr"@) {
                    Option::None => e matches OpError::AttributeMissing { name: n } && n@
                        == "required_attr"@,
                    Option::Some(a) => !(a is I64) && (e matches OpError::AttributeTypeError {
                        name: n,
                    } && n@ == "required_attr"@),
                },
            },
    {
        match info.get_attribute_i64("required_attr") {
            Ok(_) => Ok(FallibleOp),
            Err(e) => Err(e),
        }
    }

    /// Err exactly when the input holds a true element; an all-false (or
    /// empty) input passes through unchanged.
    fn kernel_compute(&self, inputs: Inputs) -> (r: Result<Outputs, ExampleError>)
        ensures
            ({
                let v = inputs.positional@[0];
                match v {
                    Value::TensorBool(t) => {
                        if exists|i: int| 0 <= i < t.data@.len() && t.data@[i] {
                            r == Err::<Outputs, ExampleError>(ExampleError::NonZeroInput)
                        } else {
                            r matches Ok(o) && o.values@ == seq![v]
                        }
                    },
                    _ => true,
                }
            }),
    {
        let t: Tensor<bool> = inputs.into_array();
        if any_true(&t) {
            return Err(ExampleError::NonZeroInput);
        }
        let mut values: Vec<Value> = Vec::new();
        values.push(Value::TensorBool(t));
        Ok(Outputs { values })
    }
}

} // verus!
