//! An operator that adds a constant, read from a node attribute at
//! construction time, to every element of its one `i64` input.

use vstd::prelude::*;
use vstd::string::StringExecFns;

use crate::attributes::KernelInfo;
use crate::custom_op::CustomOp;
use crate::custom_op::OpSignature;
use crate::custom_op::SigModel;
use crate::element_type::ElementType;
use crate::error::OpError;
use crate::inputs::InputSignature;
use crate::inputs::Inputs;
use crate::outputs::OutputSignature;
use crate::outputs::Outputs;
use crate::ops::common::add_scalar_i64_wrapping;
use crate::tensor::Tensor;
use crate::value::Value;

verus! {

/// The constant the operator adds, read from the node's `constant`
/// attribute when the kernel is constructed.
#[derive(Debug)]
pub struct AddConstant {
    pub constant: i64,
}

impl CustomOp for AddConstant {
    type KernelCreateError = OpError;

    type ComputeError = core::convert::Infallible;

    open spec fn spec_signature() -> SigModel {
        SigModel {
            name: "AddConstant"@,
            version: 1,
            input_positional: seq![ElementType::I64],
            input_variadic: None,
            output_positional: seq![ElementType::I64],
            output_variadic: None,
        }
    }

    proof fn signature_wf() {
    }

    fn signature() -> (s: OpSignature) {
        let mut input_positional: Vec<ElementType> = Vec::new();
        input_positional.push(ElementType::I64);
        let mut output_positional: Vec<ElementType> = Vec::new();
        output_positional.push(ElementType::I64);
        let s = OpSignature {
            name: String::from_str("AddConstant"),
            version: 1,
            inputs: InputSignature { positional: input_positional, variadic: None },
            outputs: OutputSignature { positional: output_positional, variadic: None },
        };
        proof {
            assert(s.model().input_positional =~= seq![ElementType::I64]);
            assert(s.model().output_positional =~= seq![ElementType::I64]);
        }
        s
    }

    /// Read and validate the `constant` attribute; a node without it, or
    /// with it under another type, never yields a kernel.
    fn kernel_create(info: &KernelInfo) -> (r: Result<Self, OpError>)
        ensures
            match r {
                Ok(k) => info.spec_find("constant"@) == Some(
                    crate::attributes::AttributeValue::I64(k.constant),
                ),
                Err(e) => match info.spec_find("constant"@) {
                    Option::None => e matches OpError::AttributeMissing { name: n } && n@
                        == "constant"@,
                    Option::Some(a) => !(a is I64) && (e matches OpError::AttributeTypeError {
                        name: n,
                    } && n@ == "constant"@),
                },
            },
    {
        match info.get_attribute_i64("constant") {
            Ok(constant) => Ok(AddConstant { constant }),
            Err(e) => Err(e),
        }
    }

    /// Add the constant to every element, wrapping on overflow; the output
    /// keeps the input's shape. Never errs.
    fn kernel_compute(&self, inputs: Inputs) -> (r: Result<Outputs, core::convert::Infallible>)
        ensures
            r matches Ok(o) && {
                &&& o.values@.len() == 1
                &&& inputs.positional@[0] matches Value::TensorI64(a) && (o.values@[0] matches
                    Value::TensorI64(b) && {
                    &&& b.shape@ == a.shape@
                    &&& b.data@.len() == a.data@.len()
                    &&& forall|i: int|
                        #![trigger b.data@[i]]
                        0 <= i < a.data@.len() ==> b.data@[i]
                            == vstd::wrapping::i64_specs::wrapping_add(a.data@[i], self.constant)
                })
            },
    {
        let t: Tensor<i64> = inputs.into_array();
        let out = add_scalar_i64_wrapping(&t, self.constant);
        let mut values: Vec<Value> = Vec::new();
        values.push(Value::TensorI64(out));
        Ok(Outputs { values })
    }
}

} // verus!
