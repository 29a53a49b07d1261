//! The model of host-owned tensors and of the per-call context the host
//! hands a kernel: type-erased tensors carrying a wire-level type code, a
//! shape, and a flat payload, plus the decoding of such tensors into tagged
//! `Value`s and the encoding of results back.

use vstd::prelude::*;

use crate::element_type::lemma_code_supported;
use crate::element_type::ElementType;
use crate::element_type::CODE_BOOL;
use crate::element_type::CODE_F32;
use crate::element_type::CODE_F64;
use crate::element_type::CODE_I16;
use crate::element_type::CODE_I32;
use crate::element_type::CODE_I64;
use crate::element_type::CODE_I8;
use crate::element_type::CODE_STRING;
use crate::element_type::CODE_U16;
use crate::element_type::CODE_U32;
use crate::element_type::CODE_U64;
use crate::element_type::CODE_U8;
use crate::error::OpError;
use crate::tensor::copy_vec;
use crate::tensor::spec_element_count;
use crate::tensor::Tensor;
use crate::tensor::TensorString;
use crate::value::Value;

verus! {

/// The flat payload of a host tensor, one variant per element kind the host
/// may report. `Opaque` stands for the payload of a tensor whose type code
/// this layer does not know: it can be carried but never read.
#[derive(Debug)]
pub enum HostData {
    Bool(Vec<bool>),
    F32(Vec<u32>),
    F64(Vec<u64>),
    I8(Vec<i8>),
    I16(Vec<i16>),
    I32(Vec<i32>),
    I64(Vec<i64>),
    U8(Vec<u8>),
    U16(Vec<u16>),
    U32(Vec<u32>),
    U64(Vec<u64>),
    Str { buf: Vec<u8>, offsets: Vec<usize> },
    Opaque(Vec<u8>),
}

/// A tensor as the host owns it: a wire-level element-type code, a shape,
/// and the flat payload. This layer never allocates such tensors for inputs
/// — it only reads them — and asks the host for fresh ones to write outputs
/// into.
#[derive(Debug)]
pub struct HostTensor {
    pub code: u32,
    pub shape: Vec<usize>,
    pub data: HostData,
}

impl HostTensor {
    /// The host's own invariant on a tensor: the payload variant agrees
    /// with the advertised type code, the payload holds exactly one element
    /// per point of the shape, and string payloads satisfy the offset
    /// discipline of `TensorString`.
    pub open spec fn wf(self) -> bool {
        match self.data {
            HostData::Bool(v) => self.code == CODE_BOOL && spec_element_count(self.shape@)
                == v@.len(),
            HostData::F32(v) => self.code == CODE_F32 && spec_element_count(self.shape@)
                == v@.len(),
            HostData::F64(v) => self.code == CODE_F64 && spec_element_count(self.shape@)
                == v@.len(),
            HostData::I8(v) => self.code == CODE_I8 && spec_element_count(self.shape@) == v@.len(),
            HostData::I16(v) => self.code == CODE_I16 && spec_element_count(self.shape@)
                == v@.len(),
            HostData::I32(v) => self.code == CODE_I32 && spec_element_count(self.shape@)
                == v@.len(),
            HostData::I64(v) => self.code == CODE_I64 && spec_element_count(self.shape@)
                == v@.len(),
            HostData::U8(v) => self.code == CODE_U8 && spec_element_count(self.shape@) == v@.len(),
            HostData::U16(v) => self.code == CODE_U16 && spec_element_count(self.shape@)
                == v@.len(),
            HostData::U32(v) => self.code == CODE_U32 && spec_element_count(self.shape@)
                == v@.len(),
            HostData::U64(v) => self.code == CODE_U64 && spec_element_count(self.shape@)
                == v@.len(),
            HostData::Str { buf, offsets } => self.code == CODE_STRING && (TensorString {
                buf,
                offsets,
                shape: self.shape,
            }).wf(),
            HostData::Opaque(_) => !ElementType::is_supported_code(self.code),
        }
    }

    /// Decide the host invariant at run time, for callers outside verified
    /// code that receive a tensor they cannot otherwise trust.
    pub fn check_wf(&self) -> (r: bool)
        ensures
            r == self.wf(),
    {
        match &self.data {
            HostData::Bool(v) => self.code == CODE_BOOL && crate::tensor::element_count_matches(
                &self.shape,
                v.len(),
            ),
            HostData::F32(v) => self.code == CODE_F32 && crate::tensor::element_count_matches(
                &self.shape,
                v.len(),
            ),
            HostData::F64(v) => self.code == CODE_F64 && crate::tensor::element_count_matches(
                &self.shape,
                v.len(),
            ),
            HostData::I8(v) => self.code == CODE_I8 && crate::tensor::element_count_matches(
                &self.shape,
                v.len(),
            ),
            HostData::I16(v) => self.code == CODE_I16 && crate::tensor::element_count_matches(
                &self.shape,
                v.len(),
            ),
            HostData::I32(v) => self.code == CODE_I32 && crate::tensor::element_count_matches(
                &self.shape,
                v.len(),
            ),
            HostData::I64(v) => self.code == CODE_I64 && crate::tensor::element_count_matches(
                &self.shape,
                v.len(),
            ),
            HostData::U8(v) => self.code == CODE_U8 && crate::tensor::element_count_matches(
                &self.shape,
                v.len(),
            ),
            HostData::U16(v) => self.code == CODE_U16 && crate::tensor::element_count_matches(
                &self.shape,
                v.len(),
            ),
            HostData::U32(v) => self.code == CODE_U32 && crate::tensor::element_count_matches(
                &self.shape,
                v.len(),
            ),
            HostData::U64(v) => self.code == CODE_U64 && crate::tensor::element_count_matches(
                &self.shape,
                v.len(),
            ),
            HostData::Str { buf, offsets } => self.code == CODE_STRING
                && crate::tensor::string_layout_wf(buf, offsets, &self.shape),
            HostData::Opaque(_) => ElementType::try_from_ort_encoding(self.code).is_err(),
        }
    }

    /// The tagged value this tensor decodes to. Only meaningful when the
    /// tensor's code is supported: an opaque payload decodes to no
    /// particular value.
    pub open spec fn spec_value(self) -> Value {
        match self.data {
            HostData::Bool(v) => Value::TensorBool(Tensor { data: v, shape: self.shape }),
            HostData::F32(v) => Value::TensorF32(Tensor { data: v, shape: self.shape }),
            HostData::F64(v) => Value::TensorF64(Tensor { data: v, shape: self.shape }),
            HostData::I8(v) => Value::TensorI8(Tensor { data: v, shape: self.shape }),
            HostData::I16(v) => Value::TensorI16(Tensor { data: v, shape: self.shape }),
            HostData::I32(v) => Value::TensorI32(Tensor { data: v, shape: self.shape }),
            HostData::I64(v) => Value::TensorI64(Tensor { data: v, shape: self.shape }),
            HostData::U8(v) => Value::TensorU8(Tensor { data: v, shape: self.shape }),
            HostData::U16(v) => Value::TensorU16(Tensor { data: v, shape: self.shape }),
            HostData::U32(v) => Value::TensorU32(Tensor { data: v, shape: self.shape }),
            HostData::U64(v) => Value::TensorU64(Tensor { data: v, shape: self.shape }),
            HostData::Str { buf, offsets } => Value::TensorStr(TensorString {
                buf,
                offsets,
                shape: self.shape,
            }),
            HostData::Opaque(_) => vstd::pervasive::arbitrary(),
        }
    }
}

impl Value {
    /// The host tensor this value encodes to: the tag's wire-level code,
    /// the shape, and the payload moved across unchanged.
    pub open spec fn spec_host(self) -> HostTensor {
        match self {
            Value::TensorBool(t) => HostTensor {
                code: CODE_BOOL,
                shape: t.shape,
                data: HostData::Bool(t.data),
            },
            Value::TensorF32(t) => HostTensor {
                code: CODE_F32,
                shape: t.shape,
                data: HostData::F32(t.data),
            },
            Value::TensorF64(t) => HostTensor {
                code: CODE_F64,
                shape: t.shape,
                data: HostData::F64(t.data),
            },
            Value::TensorI8(t) => HostTensor {
                code: CODE_I8,
                shape: t.shape,
                data: HostData::I8(t.data),
            },
            Value::TensorI16(t) => HostTensor {
                code: CODE_I16,
                shape: t.shape,
                data: HostData::I16(t.data),
            },
            Value::TensorI32(t) => HostTensor {
                code: CODE_I32,
                shape: t.shape,
                data: HostData::I32(t.data),
            },
            Value::TensorI64(t) => HostTensor {
                code: CODE_I64,
                shape: t.shape,
                data: HostData::I64(t.data),
            },
            Value::TensorU8(t) => HostTensor {
                code: CODE_U8,
                shape: t.shape,
                data: HostData::U8(t.data),
            },
            Value::TensorU16(t) => HostTensor {
                code: CODE_U16,
                shape: t.shape,
                data: HostData::U16(t.data),
            },
            Value::TensorU32(t) => HostTensor {
                code: CODE_U32,
                shape: t.shape,
                data: HostData::U32(t.data),
            },
            Value::TensorU64(t) => HostTensor {
                code: CODE_U64,
                shape: t.shape,
                data: HostData::U64(t.data),
            },
            Value::TensorStr(t) => HostTensor {
                code: CODE_STRING,
                shape: t.shape,
                data: HostData::Str { buf: t.buf, offsets: t.offsets },
            },
        }
    }
}

/// Decode a host tensor into the tagged value a kernel works with. The
/// payload is taken over without being copied or altered; a tensor whose
/// type code lies outside the closed set is rejected.
pub fn decode_value(t: HostTensor) -> (r: Result<Value, OpError>)
    requires
        t.wf(),
    ensures
        match r {
            Ok(v) => {
                &&& ElementType::is_supported_code(t.code)
                &&& v == t.spec_value()
                &&& v.wf()
            },
            Err(e) => {
                &&& !ElementType::is_supported_code(t.code)
                &&& e == (OpError::UnsupportedElementType { code: t.code })
            },
        },
{
    let HostTensor { code, shape, data } = t;
    match data {
        HostData::Bool(v) => {
            proof {
                lemma_code_supported(ElementType::Bool);
            }
            Ok(Value::TensorBool(Tensor { data: v, shape }))
        },
        HostData::F32(v) => {
            proof {
                lemma_code_supported(ElementType::F32);
            }
            Ok(Value::TensorF32(Tensor { data: v, shape }))
        },
        HostData::F64(v) => {
            proof {
                lemma_code_supported(ElementType::F64);
            }
            Ok(Value::TensorF64(Tensor { data: v, shape }))
        },
        HostData::I8(v) => {
            proof {
                lemma_code_supported(ElementType::I8);
            }
            Ok(Value::TensorI8(Tensor { data: v, shape }))
        },
        HostData::I16(v) => {
            proof {
                lemma_code_supported(ElementType::I16);
            }
            Ok(Value::TensorI16(Tensor { data: v, shape }))
        },
        HostData::I32(v) => {
            proof {
                lemma_code_supported(ElementType::I32);
            }
            Ok(Value::TensorI32(Tensor { data: v, shape }))
        },
        HostData::I64(v) => {
            proof {
                lemma_code_supported(ElementType::I64);
            }
            Ok(Value::TensorI64(Tensor { data: v, shape }))
        },
        HostData::U8(v) => {
            proof {
                lemma_code_supported(ElementType::U8);
            }
            Ok(Value::TensorU8(Tensor { data: v, shape }))
        },
        HostData::U16(v) => {
            proof {
                lemma_code_supported(ElementType::U16);
            }
            Ok(Value::TensorU16(Tensor { data: v, shape }))
        },
        HostData::U32(v) => {
            proof {
                lemma_code_supported(ElementType::U32);
            }
            Ok(Value::TensorU32(Tensor { data: v, shape }))
        },
        HostData::U64(v) => {
            proof {
                lemma_code_supported(ElementType::U64);
            }
            Ok(Value::TensorU64(Tensor { data: v, shape }))
        },
        HostData::Str { buf, offsets } => {
            proof {
                lemma_code_supported(ElementType::Utf8);
            }
            Ok(Value::TensorStr(TensorString { buf, offsets, shape }))
        },
        HostData::Opaque(_) => Err(OpError::UnsupportedElementType { code }),
    }
}

/// Decode a borrowed host tensor into a tagged value by copying its
/// payload, as when an attribute tensor is materialized at kernel
/// construction. The result's contents equal what `decode_value` would
/// yield.
pub fn decode_value_ref(t: &HostTensor) -> (r: Result<Value, OpError>)
    requires
        t.wf(),
    ensures
        match r {
            Ok(v) => {
                &&& ElementType::is_supported_code(t.code)
                &&& v.spec_like(t.spec_value())
                &&& v.wf()
            },
            Err(e) => {
                &&& !ElementType::is_supported_code(t.code)
                &&& e == (OpError::UnsupportedElementType { code: t.code })
            },
        },
{
    let shape = copy_vec(&t.shape);
    match &t.data {
        HostData::Bool(v) => Ok(Value::TensorBool(Tensor { data: copy_vec(v), shape })),
        HostData::F32(v) => Ok(Value::TensorF32(Tensor { data: copy_vec(v), shape })),
        HostData::F64(v) => Ok(Value::TensorF64(Tensor { data: copy_vec(v), shape })),
        HostData::I8(v) => Ok(Value::TensorI8(Tensor { data: copy_vec(v), shape })),
        HostData::I16(v) => Ok(Value::TensorI16(Tensor { data: copy_vec(v), shape })),
        HostData::I32(v) => Ok(Value::TensorI32(Tensor { data: copy_vec(v), shape })),
        HostData::I64(v) => Ok(Value::TensorI64(Tensor { data: copy_vec(v), shape })),
        HostData::U8(v) => Ok(Value::TensorU8(Tensor { data: copy_vec(v), shape })),
        HostData::U16(v) => Ok(Value::TensorU16(Tensor { data: copy_vec(v), shape })),
        HostData::U32(v) => Ok(Value::TensorU32(Tensor { data: copy_vec(v), shape })),
        HostData::U64(v) => Ok(Value::TensorU64(Tensor { data: copy_vec(v), shape })),
        HostData::Str { buf, offsets } => Ok(
            Value::TensorStr(TensorString { buf: copy_vec(buf), offsets: copy_vec(offsets), shape }),
        ),
        HostData::Opaque(_) => Err(OpError::UnsupportedElementType { code: t.code }),
    }
}

/// Encode a tagged value into the host's type-erased form. The payload is
/// moved across unchanged.
pub fn encode_value(v: Value) -> (r: HostTensor)
    ensures
        r == v.spec_host(),
        v.wf() ==> r.wf(),
{
    match v {
        Value::TensorBool(t) => HostTensor {
            code: CODE_BOOL,
            shape: t.shape,
            data: HostData::Bool(t.data),
        },
        Value::TensorF32(t) => HostTensor {
            code: CODE_F32,
            shape: t.shape,
            data: HostData::F32(t.data),
        },
        Value::TensorF64(t) => HostTensor {
            code: CODE_F64,
            shape: t.shape,
            data: HostData::F64(t.data),
        },
        Value::TensorI8(t) => HostTensor { code: CODE_I8, shape: t.shape, data: HostData::I8(t.data) },
        Value::TensorI16(t) => HostTensor {
            code: CODE_I16,
            shape: t.shape,
            data: HostData::I16(t.data),
        },
        Value::TensorI32(t) => HostTensor {
            code: CODE_I32,
            shape: t.shape,
            data: HostData::I32(t.data),
        },
        Value::TensorI64(t) => HostTensor {
            code: CODE_I64,
            shape: t.shape,
            data: HostData::I64(t.data),
        },
        Value::TensorU8(t) => HostTensor { code: CODE_U8, shape: t.shape, data: HostData::U8(t.data) },
        Value::TensorU16(t) => HostTensor {
            code: CODE_U16,
            shape: t.shape,
            data: HostData::U16(t.data),
        },
        Value::TensorU32(t) => HostTensor {
            code: CODE_U32,
            shape: t.shape,
            data: HostData::U32(t.data),
        },
        Value::TensorU64(t) => HostTensor {
            code: CODE_U64,
            shape: t.shape,
            data: HostData::U64(t.data),
        },
        Value::TensorStr(t) => HostTensor {
            code: CODE_STRING,
            shape: t.shape,
            data: HostData::Str { buf: t.buf, offsets: t.offsets },
        },
    }
}

/// Round trip from the kernel's side: encoding a well-formed value and
/// decoding the resulting host tensor yields the value back, bit for bit,
/// for every supported element kind.
pub proof fn lemma_value_round_trip(v: Value)
    requires
        v.wf(),
    ensures
        v.spec_host().wf(),
        ElementType::is_supported_code(v.spec_host().code),
        v.spec_host().spec_value() == v,
{
    lemma_code_supported(v.spec_element_type());
}

/// Round trip from the host's side: a well-formed host tensor of a
/// supported kind survives decoding and re-encoding unchanged.
pub proof fn lemma_host_round_trip(t: HostTensor)
    requires
        t.wf(),
        ElementType::is_supported_code(t.code),
    ensures
        t.spec_value().spec_host() == t,
{
}

/// Round trip through the matching input slot, for every supported element
/// kind: encoding a well-formed value into a host tensor, decoding the
/// tensor back, and splitting the result through a signature whose one
/// positional slot expects the value's element kind yields exactly the
/// original value — contents and shape, bit for bit.
pub proof fn lemma_round_trip_through_inputs(v: Value, sig: crate::inputs::InputSignature)
    requires
        v.wf(),
        sig.positional@ =~= seq![v.spec_element_type()],
        sig.variadic is None,
    ensures
        v.spec_host().wf(),
        v.spec_host().spec_value() == v,
        sig.spec_try_from_values(seq![v.spec_host().spec_value()]) == Ok::<_, OpError>(
            (seq![v], Seq::<Value>::empty()),
        ),
{
    lemma_value_round_trip(v);
    let values = seq![v];
    assert(sig.spec_arity_ok(1));
    assert(sig.spec_slot_type(0) == Some(v.spec_element_type()));
    assert(sig.spec_types_ok(values)) by {
        assert(values[0] == v);
    }
    assert(values.take(1) =~= values);
    assert(values.skip(1) =~= Seq::<Value>::empty());
}

/// The host's record of a tensor's element type and shape, as returned by
/// its shape-inspection call.
#[derive(Clone, Debug, PartialEq, Eq)]
pub struct TensorTypeAndShapeInfo {
    pub code: u32,
    pub shape: Vec<usize>,
}

impl TensorTypeAndShapeInfo {
    /// Read the type and shape record of a host tensor.
    pub fn from_tensor(t: &HostTensor) -> (r: TensorTypeAndShapeInfo)
        ensures
            r.code == t.code,
            r.shape@ == t.shape@,
    {
        let mut shape: Vec<usize> = Vec::new();
        let n = t.shape.len();
        for i in 0..n
            invariant
                n == t.shape@.len(),
                shape@ == t.shape@.take(i as int),
        {
            shape.push(t.shape[i]);
            proof {
                assert(shape@ =~= t.shape@.take(i + 1));
            }
        }
        proof {
            assert(t.shape@.take(n as int) =~= t.shape@);
            assert(shape@ =~= t.shape@);
        }
        TensorTypeAndShapeInfo { code: t.code, shape }
    }

    /// The tensor's shape.
    pub fn shape(&self) -> (r: &Vec<usize>)
        ensures
            r == &self.shape,
    {
        &self.shape
    }

    /// The shape in the host's own signed form, one entry per dimension.
    pub fn get_dimensions(&self) -> (r: Vec<i64>)
        requires
            forall|i: int| 0 <= i < self.shape@.len() ==> self.shape@[i] <= i64::MAX,
        ensures
            r@.len() == self.shape@.len(),
            forall|i: int| 0 <= i < r@.len() ==> r@[i] == self.shape@[i],
    {
        let mut out: Vec<i64> = Vec::new();
        let n = self.shape.len();
        for i in 0..n
            invariant
                n == self.shape@.len(),
                forall|k: int| 0 <= k < self.shape@.len() ==> self.shape@[k] <= i64::MAX,
                out@.len() == i,
                forall|k: int| 0 <= k < i ==> out@[k] == self.shape@[k],
        {
            out.push(self.shape[i] as i64);
        }
        out
    }

    /// The number of elements a tensor of this shape holds, where that
    /// count fits in the machine's word size.
    pub fn get_tensor_shape_element_count(&self) -> (r: Option<usize>)
        ensures
            match r {
                Option::Some(c) => c == spec_element_count(self.shape@),
                Option::None => spec_element_count(self.shape@) > usize::MAX,
            },
    {
        crate::tensor::element_count(&self.shape)
    }

    /// The element kind behind the record's type code; fails exactly on a
    /// code outside the closed set.
    pub fn get_tensor_element_type(&self) -> (r: Result<ElementType, OpError>)
        ensures
            match r {
                Ok(t) => t.spec_encoding() == self.code,
                Err(e) => !ElementType::is_supported_code(self.code) && e == (
                OpError::UnsupportedElementType { code: self.code }),
            },
    {
        match ElementType::try_from_ort_encoding(self.code) {
            Ok(t) => Ok(t),
            Err(code) => Err(OpError::UnsupportedElementType { code }),
        }
    }
}

/// The call-scoped context the host passes to a compute call: the tensors
/// supplied as inputs, and one slot per output the host expects, filled in
/// as the kernel's results are encoded.
#[derive(Debug)]
pub struct KernelContext {
    pub inputs: Vec<HostTensor>,
    pub outputs: Vec<Option<HostTensor>>,
}

impl KernelContext {
    /// The host's invariant on a context: every input tensor is
    /// well-formed.
    pub open spec fn wf(self) -> bool {
        forall|i: int| 0 <= i < self.inputs@.len() ==> #[trigger] self.inputs@[i].wf()
    }

    /// Assemble the context for one compute call: the inputs the host
    /// supplies and the number of outputs it expects.
    pub fn from_raw(inputs: Vec<HostTensor>, output_count: usize) -> (r: KernelContext)
        ensures
            r.inputs == inputs,
            r.outputs@.len() == output_count,
            forall|i: int| 0 <= i < output_count ==> r.outputs@[i] is None,
    {
        let mut outputs: Vec<Option<HostTensor>> = Vec::new();
        for i in 0..output_count
            invariant
                outputs@.len() == i,
                forall|k: int| 0 <= k < i ==> outputs@[k] is None,
        {
            outputs.push(None);
        }
        KernelContext { inputs, outputs }
    }

    /// How many input tensors the host supplied for this call.
    pub fn get_input_count(&self) -> (r: usize)
        ensures
            r == self.inputs@.len(),
    {
        self.inputs.len()
    }

    /// How many output slots the host expects this call to fill.
    pub fn get_output_count(&self) -> (r: usize)
        ensures
            r == self.outputs@.len(),
    {
        self.outputs.len()
    }

    /// Borrow the input tensor at `index`.
    pub fn get_input(&self, index: usize) -> (r: &HostTensor)
        requires
            index < self.inputs@.len(),
        ensures
            r == &self.inputs@[index as int],
    {
        &self.inputs[index]
    }

    /// Decode the input tensor at `index` into a tagged value by copying
    /// its payload.
    pub fn get_input_value(&self, index: usize) -> (r: Result<Value, OpError>)
        requires
            self.wf(),
            index < self.inputs@.len(),
        ensures
            match r {
                Ok(v) => {
                    &&& ElementType::is_supported_code(self.inputs@[index as int].code)
                    &&& v.spec_like(self.inputs@[index as int].spec_value())
                    &&& v.wf()
                },
                Err(e) => {
                    &&& !ElementType::is_supported_code(self.inputs@[index as int].code)
                    &&& e == (OpError::UnsupportedElementType {
                        code: self.inputs@[index as int].code,
                    })
                },
            },
    {
        decode_value_ref(&self.inputs[index])
    }

    /// A handle on one output slot, for writing a single result without
    /// holding the whole context.
    pub fn get_safe_output(&self, index: usize) -> (r: OutputValue)
        requires
            index < self.outputs@.len(),
        ensures
            r.index == index,
    {
        OutputValue { index }
    }

    /// Take all input tensors out of the context, leaving it with none.
    /// Splitting the call into an input phase and an output phase keeps the
    /// borrowed input payloads and the output slots from ever aliasing.
    pub fn take_inputs(&mut self) -> (r: Vec<HostTensor>)
        ensures
            r == old(self).inputs,
            final(self).inputs@.len() == 0,
            final(self).outputs == old(self).outputs,
    {
        let mut tmp: Vec<HostTensor> = Vec::new();
        core::mem::swap(&mut self.inputs, &mut tmp);
        tmp
    }

    /// Fill the output slot at `index` with an encoded tensor. Fails
    /// exactly when the host never declared that many outputs.
    pub fn write_output(&mut self, index: usize, t: HostTensor) -> (r: Result<(), OpError>)
        ensures
            match r {
                Ok(()) => {
                    &&& index < old(self).outputs@.len()
                    &&& final(self).outputs@ == old(self).outputs@.update(
                        index as int,
                        Some(t),
                    )
                    &&& final(self).inputs == old(self).inputs
                },
                Err(e) => {
                    &&& index >= old(self).outputs@.len()
                    &&& e == (OpError::OutputIndexOutOfRange {
                        index,
                        count: old(self).outputs@.len() as usize,
                    })
                    &&& *final(self) == *old(self)
                },
            },
    {
        let n = self.outputs.len();
        if index < n {
            self.outputs[index] = Some(t);
            Ok(())
        } else {
            Err(OpError::OutputIndexOutOfRange { index, count: n })
        }
    }

    /// Build a string tensor from the given strings and shape and write it
    /// into the output slot at `index`, as the host's bulk string-filling
    /// call does. Succeeds exactly when the slot exists, the shape's
    /// element count equals the number of strings, and their concatenated
    /// bytes fit in one buffer; the written tensor then holds exactly the
    /// given strings, element `i`'s bytes being the UTF-8 encoding of
    /// string `i`.
    pub fn fill_string_tensor(
        &mut self,
        index: usize,
        strings: &Vec<String>,
        shape: Vec<usize>,
    ) -> (r: Result<(), OpError>)
        ensures
            match r {
                Ok(()) => {
                    &&& index < old(self).outputs@.len()
                    &&& spec_element_count(shape@) == strings@.len()
                    &&& final(self).inputs == old(self).inputs
                    &&& final(self).outputs@.len() == old(self).outputs@.len()
                    &&& forall|j: int|
                        #![trigger final(self).outputs@[j]]
                        0 <= j < old(self).outputs@.len() && j != index
                            ==> final(self).outputs@[j] == old(self).outputs@[j]
                    &&& final(self).outputs@[index as int] matches Some(t) && {
                        &&& t.wf()
                        &&& t.code == crate::element_type::CODE_STRING
                        &&& t.shape@ == shape@
                        &&& t.spec_value() matches Value::TensorStr(ts) && {
                            &&& ts.offsets@.len() == strings@.len()
                            &&& forall|i: int|
                                0 <= i < strings@.len() ==> #[trigger] ts.spec_element_bytes(i)
                                    == vstd::utf8::encode_utf8(strings@[i]@)
                        }
                    }
                },
                Err(e) => {
                    &&& *final(self) == *old(self)
                    &&& if index >= old(self).outputs@.len() {
                        e == (OpError::OutputIndexOutOfRange {
                            index,
                            count: old(self).outputs@.len() as usize,
                        })
                    } else if spec_element_count(shape@) != strings@.len() {
                        if spec_element_count(shape@) > usize::MAX {
                            e == OpError::StringDataTooLarge
                        } else {
                            e == (OpError::StringCountMismatch {
                                expected: spec_element_count(shape@) as usize,
                                found: strings@.len() as usize,
                            })
                        }
                    } else {
                        e == OpError::StringDataTooLarge && crate::tensor::spec_total_bytes(
                            strings@.map_values(|s: String| s@),
                        ) > usize::MAX
                    }
                },
            },
    {
        let slot_count = self.outputs.len();
        if index >= slot_count {
            return Err(OpError::OutputIndexOutOfRange { index, count: slot_count });
        }
        let n = strings.len();
        match crate::tensor::element_count(&shape) {
            Some(c) => {
                if c != n {
                    return Err(OpError::StringCountMismatch { expected: c, found: n });
                }
            },
            None => {
                return Err(OpError::StringDataTooLarge);
            },
        }
        match TensorString::from_strings(strings, shape) {
            Some(ts) => {
                proof {
                    lemma_value_round_trip(Value::TensorStr(ts));
                }
                let t = encode_value(Value::TensorStr(ts));
                let w = self.write_output(index, t);
                proof {
                    assert(w is Ok);
                }
                Ok(())
            },
            None => Err(OpError::StringDataTooLarge),
        }
    }
}

/// A handle on one output slot of a call's context.
#[derive(Clone, Copy, Debug, PartialEq, Eq, Structural)]
pub struct OutputValue {
    pub index: usize,
}

impl OutputValue {
    /// Encode a value into the slot this handle stands for.
    pub fn fill(self, ctx: &mut KernelContext, v: Value) -> (r: Result<(), OpError>)
        ensures
            match r {
                Ok(()) => {
                    &&& self.index < old(ctx).outputs@.len()
                    &&& final(ctx).outputs@ == old(ctx).outputs@.update(
                        self.index as int,
                        Some(v.spec_host()),
                    )
                    &&& final(ctx).inputs == old(ctx).inputs
                },
                Err(e) => {
                    &&& self.index >= old(ctx).outputs@.len()
                    &&& e == (OpError::OutputIndexOutOfRange {
                        index: self.index,
                        count: old(ctx).outputs@.len() as usize,
                    })
                    &&& *final(ctx) == *old(ctx)
                },
            },
    {
        ctx.write_output(self.index, encode_value(v))
    }
}

/// The position of the first tensor whose type code lies outside the
/// closed set, scanning from position `from`; the length of the list when
/// every code from there on is supported.
pub open spec fn spec_first_unsupported(tensors: Seq<HostTensor>, from: int) -> int
    decreases tensors.len() - from,
{
    if from < 0 || from >= tensors.len() {
        tensors.len() as int
    } else if !ElementType::is_supported_code(tensors[from].code) {
        from
    } else {
        spec_first_unsupported(tensors, from + 1)
    }
}

/// A scan over a clean prefix stops at the first unsupported code.
proof fn lemma_first_unsupported_stops(tensors: Seq<HostTensor>, from: int, i: int)
    requires
        0 <= from <= i < tensors.len(),
        !ElementType::is_supported_code(tensors[i].code),
        forall|k: int|
            #![trigger tensors[k]]
            0 <= k < i ==> ElementType::is_supported_code(tensors[k].code),
    ensures
        spec_first_unsupported(tensors, from) == i,
    decreases i - from,
{
    if from < i {
        lemma_first_unsupported_stops(tensors, from + 1, i);
    }
}

/// A scan over a list of supported codes reports the list's length.
proof fn lemma_first_unsupported_none(tensors: Seq<HostTensor>, from: int)
    requires
        0 <= from <= tensors.len(),
        forall|k: int|
            #![trigger tensors[k]]
            0 <= k < tensors.len() ==> ElementType::is_supported_code(tensors[k].code),
    ensures
        spec_first_unsupported(tensors, from) == tensors.len(),
    decreases tensors.len() - from,
{
    if from < tensors.len() {
        lemma_first_unsupported_none(tensors, from + 1);
    }
}

/// Decode every input tensor of a call into a tagged value, in order,
/// failing on the first tensor whose type code is unsupported.
pub fn decode_values(tensors: Vec<HostTensor>) -> (r: Result<Vec<Value>, OpError>)
    requires
        forall|i: int| #![trigger tensors@[i]] 0 <= i < tensors@.len() ==> tensors@[i].wf(),
    ensures
        match r {
            Ok(vs) => {
                &&& spec_first_unsupported(tensors@, 0) == tensors@.len()
                &&& vs@.len() == tensors@.len()
                &&& vs@ == tensors@.map_values(|t: HostTensor| t.spec_value())
                &&& forall|i: int|
                    #![trigger vs@[i]]
                    0 <= i < vs@.len() ==> vs@[i] == tensors@[i].spec_value() && vs@[i].wf()
                &&& forall|i: int|
                    #![trigger tensors@[i]]
                    0 <= i < tensors@.len() ==> ElementType::is_supported_code(tensors@[i].code)
            },
            Err(e) => {
                let u = spec_first_unsupported(tensors@, 0);
                &&& 0 <= u < tensors@.len()
                &&& !ElementType::is_supported_code(tensors@[u].code)
                &&& e == (OpError::UnsupportedElementType { code: tensors@[u].code })
            },
        },
{
    let mut out: Vec<Value> = Vec::new();
    let n = tensors.len();
    let mut rest = tensors;
    let mut i: usize = 0;
    while i < n
        invariant
            n == tensors@.len(),
            n == i + rest@.len(),
            out@.len() == i,
            forall|k: int|
                #![trigger rest@[k]]
                0 <= k < rest@.len() ==> rest@[k].wf() && rest@[k] == tensors@[k + i],
            forall|k: int|
                #![trigger out@[k]]
                0 <= k < i ==> out@[k] == tensors@[k].spec_value() && out@[k].wf(),
            forall|k: int|
                #![trigger tensors@[k]]
                0 <= k < i ==> ElementType::is_supported_code(tensors@[k].code),
        decreases n - i,
    {
        let ghost prev_rest = rest@;
        let ghost prev_out = out@;
        let t = rest.remove(0);
        proof {
            assert(t == prev_rest[0]);
            assert(t == tensors@[i as int]);
            assert(rest@ =~= prev_rest.subrange(1, prev_rest.len() as int));
        }
        match decode_value(t) {
            Ok(v) => {
                out.push(v);
            },
            Err(e) => {
                proof {
                    lemma_first_unsupported_stops(tensors@, 0, i as int);
                }
                return Err(e);
            },
        }
        i = i + 1;
        proof {
            assert forall|k: int| #![trigger rest@[k]] 0 <= k < rest@.len() implies rest@[k].wf()
                && rest@[k] == tensors@[k + i] by {
                assert(rest@[k] == prev_rest[k + 1]);
                assert(prev_rest[k + 1] == tensors@[k + i]);
            }
            assert forall|k: int| #![trigger out@[k]] 0 <= k < i implies out@[k]
                == tensors@[k].spec_value() && out@[k].wf() by {
                if k < i - 1 {
                    assert(out@[k] == prev_out[k]);
                }
            }
        }
    }
    proof {
        lemma_first_unsupported_none(tensors@, 0);
        assert(out@ =~= tensors@.map_values(|t: HostTensor| t.spec_value()));
    }
    Ok(out)
}

} // verus!
