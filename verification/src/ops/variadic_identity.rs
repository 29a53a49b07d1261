//! An operator that passes every input through unchanged: its whole input
//! is one variadic tail of 32-bit floating-point tensors, and its output is
//! the same tail. No arithmetic touches the payloads, so the bit patterns
//! flow through verified code end to end.

use vstd::prelude::*;
use vstd::string::StringExecFns;

use crate::attributes::KernelInfo;
use crate::custom_op::CustomOp;
use crate::custom_op::OpSignature;
use crate::custom_op::SigModel;
use crate::element_type::ElementType;
use crate::inputs::InputSignature;
use crate::inputs::Inputs;
use crate::inputs::VariadicSlot;
use crate::outputs::OutputSignature;
use crate::outputs::Outputs;

verus! {

/// The pass-through operator.
#[derive(Debug)]
pub struct VariadicIdentity;

impl CustomOp for VariadicIdentity {
    type KernelCreateError = core::convert::Infallible;

    type ComputeError = core::convert::Infallible;

    open spec fn spec_signature() -> SigModel {
        SigModel {
            name: "VariadicIdentity"@,
            version: 1,
            input_positional: Seq::empty(),
            input_variadic: Some(VariadicSlot { element_type: ElementType::F32, min_arity: 0 }),
            output_positional: Seq::empty(),
            output_variadic: Some(VariadicSlot { element_type: ElementType::F32, min_arity: 1 }),
        }
    }

    proof fn signature_wf() {
    }

    fn signature() -> (s: OpSignature) {
        let s = OpSignature {
            name: String::from_str("VariadicIdentity"),
            version: 1,
            inputs: InputSignature {
                positional: Vec::new(),
                variadic: Some(VariadicSlot { element_type: ElementType::F32, min_arity: 0 }),
            },
            outputs: OutputSignature {
                positional: Vec::new(),
                variadic: Some(VariadicSlot { element_type: ElementType::F32, min_arity: 1 }),
            },
        };
        proof {
            assert(s.model().input_positional =~= Seq::<ElementType>::empty());
            assert(s.model().output_positional =~= Seq::<ElementType>::empty());
        }
        s
    }

    /// Construction is stateless and cannot fail.
    fn kernel_create(info: &KernelInfo) -> (r: Result<Self, core::convert::Infallible>)
        ensures
            r is Ok,
    {
        let _ = info;
        Ok(VariadicIdentity)
    }

    /// Hand the whole variadic tail back as the outputs: the operator is
    /// the identity on its inputs, in order, and never errs.
    fn kernel_compute(&self, inputs: Inputs) -> (r: Result<Outputs, core::convert::Infallible>)
        ensures
            r matches Ok(o) && o.values == inputs.variadic,
    {
        Ok(Outputs { values: inputs.variadic })
    }
}

} // verus!
