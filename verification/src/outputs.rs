//! The declared shape of an operator's outputs, and the encoding of the
//! values a kernel returns into the host's output slots.

use vstd::prelude::*;

use crate::element_type::ElementType;
use crate::error::OpError;
use crate::host::encode_value;
use crate::host::KernelContext;
use crate::inputs::Characteristic;
use crate::inputs::VariadicSlot;
use crate::value::Value;

verus! {

/// The declared shape of an operator's outputs: one element kind per
/// required positional slot, then optionally one variadic tail.
#[derive(Clone, Debug, PartialEq, Eq)]
pub struct OutputSignature {
    pub positional: Vec<ElementType>,
    pub variadic: Option<VariadicSlot>,
}

/// The values one compute call produced, in output-slot order; values past
/// the positional prefix fill the variadic tail.
#[derive(Debug)]
pub struct Outputs {
    pub values: Vec<Value>,
}

impl OutputSignature {
    /// The element kind expected at output position `i`, or `None` where
    /// the signature has no slot for that position.
    pub open spec fn spec_slot_type(self, i: int) -> Option<ElementType> {
        if 0 <= i < self.positional@.len() {
            Some(self.positional@[i])
        } else if i >= self.positional@.len() {
            match self.variadic {
                Option::Some(v) => Some(v.element_type),
                Option::None => None,
            }
        } else {
            None
        }
    }

    /// How many logical slots the signature declares: each positional slot
    /// is one, and a variadic tail is one more.
    pub fn slot_count(&self) -> (r: usize)
        requires
            self.positional@.len() < usize::MAX,
        ensures
            r == self.positional@.len() + if self.variadic is Some {
                1int
            } else {
                0int
            },
    {
        match &self.variadic {
            Some(_) => self.positional.len() + 1,
            None => self.positional.len(),
        }
    }

    /// The host's characteristic of output slot `index`.
    pub fn characteristic(&self, index: usize) -> (r: Characteristic)
        requires
            self.positional@.len() < usize::MAX,
            index < self.positional@.len() + if self.variadic is Some {
                1int
            } else {
                0int
            },
        ensures
            r == if index < self.positional@.len() {
                Characteristic::Required
            } else {
                Characteristic::Variadic
            },
    {
        if index < self.positional.len() {
            Characteristic::Required
        } else {
            Characteristic::Variadic
        }
    }

    /// The element kind of output slot `index`.
    pub fn tensor_data_type(&self, index: usize) -> (r: ElementType)
        requires
            self.positional@.len() < usize::MAX,
            index < self.positional@.len() + if self.variadic is Some {
                1int
            } else {
                0int
            },
        ensures
            Some(r) == self.spec_slot_type(index as int),
    {
        if index < self.positional.len() {
            self.positional[index]
        } else {
            match &self.variadic {
                Some(v) => v.element_type,
                None => unreached(),
            }
        }
    }
}

impl Outputs {
    /// How many values the call produced.
    pub fn len(&self) -> (r: usize)
        ensures
            r == self.values@.len(),
    {
        self.values.len()
    }

    /// Encode every produced value into the host's output slot of the same
    /// index. Fails, writing nothing, when the call produced more values
    /// than the host declared output slots.
    pub fn write_to_ort(self, ctx: &mut KernelContext) -> (r: Result<(), OpError>)
        ensures
            match r {
                Ok(()) => {
                    &&& self.values@.len() <= old(ctx).outputs@.len()
                    &&& final(ctx).inputs == old(ctx).inputs
                    &&& final(ctx).outputs@.len() == old(ctx).outputs@.len()
                    &&& forall|i: int|
                        #![trigger final(ctx).outputs@[i]]
                        0 <= i < self.values@.len() ==> final(ctx).outputs@[i] == Some(
                            self.values@[i].spec_host(),
                        )
                    &&& forall|i: int|
                        #![trigger final(ctx).outputs@[i]]
                        self.values@.len() <= i < old(ctx).outputs@.len()
                            ==> final(ctx).outputs@[i] == old(ctx).outputs@[i]
                },
                Err(e) => {
                    &&& self.values@.len() > old(ctx).outputs@.len()
                    &&& e == (OpError::OutputIndexOutOfRange {
                        index: old(ctx).outputs@.len() as usize,
                        count: old(ctx).outputs@.len() as usize,
                    })
                    &&& *final(ctx) == *old(ctx)
                },
            },
    {
        let n = self.values.len();
        let count = ctx.get_output_count();
        if n > count {
            return Err(OpError::OutputIndexOutOfRange { index: count, count });
        }
        let ghost all_values = self.values@;
        let mut rest = self.values;
        let mut i: usize = 0;
        while i < n
            invariant
                n == all_values.len(),
                n <= count,
                count == ctx.outputs@.len(),
                n == i + rest@.len(),
                ctx.inputs == old(ctx).inputs,
                ctx.outputs@.len() == old(ctx).outputs@.len(),
                forall|k: int|
                    #![trigger rest@[k]]
                    0 <= k < rest@.len() ==> rest@[k] == all_values[k + i],
                forall|k: int|
                    #![trigger ctx.outputs@[k]]
                    0 <= k < i ==> ctx.outputs@[k] == Some(all_values[k].spec_host()),
                forall|k: int|
                    #![trigger ctx.outputs@[k]]
                    i <= k < count ==> ctx.outputs@[k] == old(ctx).outputs@[k],
            decreases n - i,
        {
            let ghost prev_rest = rest@;
            let v = rest.remove(0);
            proof {
                assert(v == all_values[i as int]);
                assert(rest@ =~= prev_rest.subrange(1, prev_rest.len() as int));
            }
            let t = encode_value(v);
            let w = ctx.write_output(i, t);
            proof {
                assert(w is Ok);
            }
            i = i + 1;
            proof {
                assert forall|k: int| #![trigger rest@[k]] 0 <= k < rest@.len() implies rest@[k]
                    == all_values[k + i] by {
                    assert(rest@[k] == prev_rest[k + 1]);
                }
            }
        }
        Ok(())
    }
}

} // verus!
