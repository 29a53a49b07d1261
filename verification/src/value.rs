//! The tagged union a kernel sees: one variant per supported element kind,
//! each holding a shaped, typed payload, plus the type-checked extraction of
//! a concrete payload out of a value.

use vstd::prelude::*;

use crate::element_type::ElementType;
use crate::error::OpError;
use crate::tensor::Tensor;
use crate::tensor::TensorString;

verus! {

/// A shaped, typed tensor value, tagged by its element kind.
///
/// The two floating-point variants carry raw bit patterns: this layer only
/// moves such data, it never computes with it. The string variant carries
/// the concatenated-buffer representation of a string tensor.
#[derive(Clone, Debug, PartialEq, Eq)]
pub enum Value {
    TensorBool(Tensor<bool>),
    TensorF32(Tensor<u32>),
    TensorF64(Tensor<u64>),
    TensorI8(Tensor<i8>),
    TensorI16(Tensor<i16>),
    TensorI32(Tensor<i32>),
    TensorI64(Tensor<i64>),
    TensorU8(Tensor<u8>),
    TensorU16(Tensor<u16>),
    TensorU32(Tensor<u32>),
    TensorU64(Tensor<u64>),
    TensorStr(TensorString),
}

impl Value {
    /// The element kind this value is tagged with.
    pub open spec fn spec_element_type(self) -> ElementType {
        match self {
            Value::TensorBool(_) => ElementType::Bool,
            Value::TensorF32(_) => ElementType::F32,
            Value::TensorF64(_) => ElementType::F64,
            Value::TensorI8(_) => ElementType::I8,
            Value::TensorI16(_) => ElementType::I16,
            Value::TensorI32(_) => ElementType::I32,
            Value::TensorI64(_) => ElementType::I64,
            Value::TensorU8(_) => ElementType::U8,
            Value::TensorU16(_) => ElementType::U16,
            Value::TensorU32(_) => ElementType::U32,
            Value::TensorU64(_) => ElementType::U64,
            Value::TensorStr(_) => ElementType::Utf8,
        }
    }

    /// Read the element kind this value is tagged with.
    pub fn element_type(&self) -> (r: ElementType)
        ensures
            r == self.spec_element_type(),
    {
        match self {
            Value::TensorBool(_) => ElementType::Bool,
            Value::TensorF32(_) => ElementType::F32,
            Value::TensorF64(_) => ElementType::F64,
            Value::TensorI8(_) => ElementType::I8,
            Value::TensorI16(_) => ElementType::I16,
            Value::TensorI32(_) => ElementType::I32,
            Value::TensorI64(_) => ElementType::I64,
            Value::TensorU8(_) => ElementType::U8,
            Value::TensorU16(_) => ElementType::U16,
            Value::TensorU32(_) => ElementType::U32,
            Value::TensorU64(_) => ElementType::U64,
            Value::TensorStr(_) => ElementType::Utf8,
        }
    }

    /// The value's shape.
    pub open spec fn spec_shape(self) -> Seq<usize> {
        match self {
            Value::TensorBool(t) => t.shape@,
            Value::TensorF32(t) => t.shape@,
            Value::TensorF64(t) => t.shape@,
            Value::TensorI8(t) => t.shape@,
            Value::TensorI16(t) => t.shape@,
            Value::TensorI32(t) => t.shape@,
            Value::TensorI64(t) => t.shape@,
            Value::TensorU8(t) => t.shape@,
            Value::TensorU16(t) => t.shape@,
            Value::TensorU32(t) => t.shape@,
            Value::TensorU64(t) => t.shape@,
            Value::TensorStr(t) => t.shape@,
        }
    }

    /// Read the value's shape.
    pub fn shape(&self) -> (r: &Vec<usize>)
        ensures
            r@ == self.spec_shape(),
    {
        match self {
            Value::TensorBool(t) => &t.shape,
            Value::TensorF32(t) => &t.shape,
            Value::TensorF64(t) => &t.shape,
            Value::TensorI8(t) => &t.shape,
            Value::TensorI16(t) => &t.shape,
            Value::TensorI32(t) => &t.shape,
            Value::TensorI64(t) => &t.shape,
            Value::TensorU8(t) => &t.shape,
            Value::TensorU16(t) => &t.shape,
            Value::TensorU32(t) => &t.shape,
            Value::TensorU64(t) => &t.shape,
            Value::TensorStr(t) => &t.shape,
        }
    }

    /// The structural invariant: the payload's buffer agrees with its
    /// shape.
    pub open spec fn wf(self) -> bool {
        match self {
            Value::TensorBool(t) => t.wf(),
            Value::TensorF32(t) => t.wf(),
            Value::TensorF64(t) => t.wf(),
            Value::TensorI8(t) => t.wf(),
            Value::TensorI16(t) => t.wf(),
            Value::TensorI32(t) => t.wf(),
            Value::TensorI64(t) => t.wf(),
            Value::TensorU8(t) => t.wf(),
            Value::TensorU16(t) => t.wf(),
            Value::TensorU32(t) => t.wf(),
            Value::TensorU64(t) => t.wf(),
            Value::TensorStr(t) => t.wf(),
        }
    }

    /// The type-mismatch error raised when this value is extracted through
    /// a slot expecting the element kind `expected`.
    pub open spec fn spec_mismatch(self, expected: ElementType) -> OpError {
        OpError::TypeMismatch { expected, found: self.spec_element_type() }
    }

    /// Content equality: the two values carry the same tag and their
    /// payloads hold the same contents, element for element. (A value and
    /// its copy are alike even though they own distinct buffers.)
    pub open spec fn spec_like(self, other: Value) -> bool {
        &&& self.spec_element_type() == other.spec_element_type()
        &&& self.spec_shape() == other.spec_shape()
        &&& match (self, other) {
            (Value::TensorBool(a), Value::TensorBool(b)) => a.data@ == b.data@,
            (Value::TensorF32(a), Value::TensorF32(b)) => a.data@ == b.data@,
            (Value::TensorF64(a), Value::TensorF64(b)) => a.data@ == b.data@,
            (Value::TensorI8(a), Value::TensorI8(b)) => a.data@ == b.data@,
            (Value::TensorI16(a), Value::TensorI16(b)) => a.data@ == b.data@,
            (Value::TensorI32(a), Value::TensorI32(b)) => a.data@ == b.data@,
            (Value::TensorI64(a), Value::TensorI64(b)) => a.data@ == b.data@,
            (Value::TensorU8(a), Value::TensorU8(b)) => a.data@ == b.data@,
            (Value::TensorU16(a), Value::TensorU16(b)) => a.data@ == b.data@,
            (Value::TensorU32(a), Value::TensorU32(b)) => a.data@ == b.data@,
            (Value::TensorU64(a), Value::TensorU64(b)) => a.data@ == b.data@,
            (Value::TensorStr(a), Value::TensorStr(b)) => a.buf@ == b.buf@ && a.offsets@
                == b.offsets@,
            _ => false,
        }
    }
}

impl Value {
    /// Extract a `bool` tensor; fails on any other tag.
    pub fn try_into_bool(self) -> (r: Result<Tensor<bool>, OpError>)
        ensures
            match r {
                Ok(t) => self == Value::TensorBool(t),
                Err(e) => self.spec_element_type() != ElementType::Bool && e == self.spec_mismatch(
                    ElementType::Bool,
                ),
            },
    {
        match self {
            Value::TensorBool(t) => Ok(t),
            other => Err(other.mismatch(ElementType::Bool)),
        }
    }

    /// Extract the bit patterns of a 32-bit floating-point tensor; fails on
    /// any other tag.
    pub fn try_into_f32_bits(self) -> (r: Result<Tensor<u32>, OpError>)
        ensures
            match r {
                Ok(t) => self == Value::TensorF32(t),
                Err(e) => self.spec_element_type() != ElementType::F32 && e == self.spec_mismatch(
                    ElementType::F32,
                ),
            },
    {
        match self {
            Value::TensorF32(t) => Ok(t),
            other => Err(other.mismatch(ElementType::F32)),
        }
    }

    /// Extract the bit patterns of a 64-bit floating-point tensor; fails on
    /// any other tag.
    pub fn try_into_f64_bits(self) -> (r: Result<Tensor<u64>, OpError>)
        ensures
            match r {
                Ok(t) => self == Value::TensorF64(t),
                Err(e) => self.spec_element_type() != ElementType::F64 && e == self.spec_mismatch(
                    ElementType::F64,
                ),
            },
    {
        match self {
            Value::TensorF64(t) => Ok(t),
            other => Err(other.mismatch(ElementType::F64)),
        }
    }

    /// Extract an `i8` tensor; fails on any other tag.
    pub fn try_into_i8(self) -> (r: Result<Tensor<i8>, OpError>)
        ensures
            match r {
                Ok(t) => self == Value::TensorI8(t),
                Err(e) => self.spec_element_type() != ElementType::I8 && e == self.spec_mismatch(
                    ElementType::I8,
                ),
            },
    {
        match self {
            Value::TensorI8(t) => Ok(t),
            other => Err(other.mismatch(ElementType::I8)),
        }
    }

    /// Extract an `i16` tensor; fails on any other tag.
    pub fn try_into_i16(self) -> (r: Result<Tensor<i16>, OpError>)
        ensures
            match r {
                Ok(t) => self == Value::TensorI16(t),
                Err(e) => self.spec_element_type() != ElementType::I16 && e == self.spec_mismatch(
                    ElementType::I16,
                ),
            },
    {
        match self {
            Value::TensorI16(t) => Ok(t),
            other => Err(other.mismatch(ElementType::I16)),
        }
    }

    /// Extract an `i32` tensor; fails on any other tag.
    pub fn try_into_i32(self) -> (r: Result<Tensor<i32>, OpError>)
        ensures
            match r {
                Ok(t) => self == Value::TensorI32(t),
                Err(e) => self.spec_element_type() != ElementType::I32 && e == self.spec_mismatch(
                    ElementType::I32,
                ),
            },
    {
        match self {
            Value::TensorI32(t) => Ok(t),
            other => Err(other.mismatch(ElementType::I32)),
        }
    }

    /// Extract an `i64` tensor; fails on any other tag.
    pub fn try_into_i64(self) -> (r: Result<Tensor<i64>, OpError>)
        ensures
            match r {
                Ok(t) => self == Value::TensorI64(t),
                Err(e) => self.spec_element_type() != ElementType::I64 && e == self.spec_mismatch(
                    ElementType::I64,
                ),
            },
    {
        match self {
            Value::TensorI64(t) => Ok(t),
            other => Err(other.mismatch(ElementType::I64)),
        }
    }

    /// Extract a `u8` tensor; fails on any other tag.
    pub fn try_into_u8(self) -> (r: Result<Tensor<u8>, OpError>)
        ensures
            match r {
                Ok(t) => self == Value::TensorU8(t),
                Err(e) => self.spec_element_type() != ElementType::U8 && e == self.spec_mismatch(
                    ElementType::U8,
                ),
            },
    {
        match self {
            Value::TensorU8(t) => Ok(t),
            other => Err(other.mismatch(ElementType::U8)),
        }
    }

    /// Extract a `u16` tensor; fails on any other tag.
    pub fn try_into_u16(self) -> (r: Result<Tensor<u16>, OpError>)
        ensures
            match r {
                Ok(t) => self == Value::TensorU16(t),
                Err(e) => self.spec_element_type() != ElementType::U16 && e == self.spec_mismatch(
                    ElementType::U16,
                ),
            },
    {
        match self {
            Value::TensorU16(t) => Ok(t),
            other => Err(other.mismatch(ElementType::U16)),
        }
    }

    /// Extract a `u32` tensor; fails on any other tag.
    pub fn try_into_u32(self) -> (r: Result<Tensor<u32>, OpError>)
        ensures
            match r {
                Ok(t) => self == Value::TensorU32(t),
                Err(e) => self.spec_element_type() != ElementType::U32 && e == self.spec_mismatch(
                    ElementType::U32,
                ),
            },
    {
        match self {
            Value::TensorU32(t) => Ok(t),
            other => Err(other.mismatch(ElementType::U32)),
        }
    }

    /// Extract a `u64` tensor; fails on any other tag.
    pub fn try_into_u64(self) -> (r: Result<Tensor<u64>, OpError>)
        ensures
            match r {
                Ok(t) => self == Value::TensorU64(t),
                Err(e) => self.spec_element_type() != ElementType::U64 && e == self.spec_mismatch(
                    ElementType::U64,
                ),
            },
    {
        match self {
            Value::TensorU64(t) => Ok(t),
            other => Err(other.mismatch(ElementType::U64)),
        }
    }

    /// Extract a string tensor; fails on any other tag.
    pub fn try_into_str(self) -> (r: Result<TensorString, OpError>)
        ensures
            match r {
                Ok(t) => self == Value::TensorStr(t),
                Err(e) => self.spec_element_type() != ElementType::Utf8 && e == self.spec_mismatch(
                    ElementType::Utf8,
                ),
            },
    {
        match self {
            Value::TensorStr(t) => Ok(t),
            other => Err(other.mismatch(ElementType::Utf8)),
        }
    }

    /// Build the type-mismatch error for this value against an expected
    /// element kind.
    fn mismatch(&self, expected: ElementType) -> (e: OpError)
        ensures
            e == self.spec_mismatch(expected),
    {
        OpError::TypeMismatch { expected, found: self.element_type() }
    }
}

/// A typed payload that can be extracted from a tagged value: the statically
/// expected element kind, and the extraction, which fails exactly on a
/// value of any other kind.
///
/// The two floating-point kinds have no implementation here: their bit
/// patterns share the payload types of the unsigned kinds and are extracted
/// through the values' own bit-pattern methods.
pub trait TryFromValue: Sized {
    /// The element kind this payload type is extracted from.
    spec fn spec_expected_type() -> ElementType;

    /// The payload inside a value of the expected kind.
    spec fn spec_unwrap(v: Value) -> Self;

    /// Extract the payload; fails with a type mismatch on any other kind.
    fn try_from_value(v: Value) -> (r: Result<Self, OpError>)
        ensures
            match r {
                Ok(t) => v.spec_element_type() == Self::spec_expected_type() && t
                    == Self::spec_unwrap(v),
                Err(e) => v.spec_element_type() != Self::spec_expected_type() && e
                    == v.spec_mismatch(Self::spec_expected_type()),
            },
    ;
}

impl TryFromValue for Tensor<bool> {
    open spec fn spec_expected_type() -> ElementType {
        ElementType::Bool
    }

    open spec fn spec_unwrap(v: Value) -> Self {
        match v {
            Value::TensorBool(t) => t,
            _ => vstd::pervasive::arbitrary(),
        }
    }

    fn try_from_value(v: Value) -> (r: Result<Self, OpError>) {
        v.try_into_bool()
    }
}

impl TryFromValue for Tensor<i8> {
    open spec fn spec_expected_type() -> ElementType {
        ElementType::I8
    }

    open spec fn spec_unwrap(v: Value) -> Self {
        match v {
            Value::TensorI8(t) => t,
            _ => vstd::pervasive::arbitrary(),
        }
    }

    fn try_from_value(v: Value) -> (r: Result<Self, OpError>) {
        v.try_into_i8()
    }
}

impl TryFromValue for Tensor<i16> {
    open spec fn spec_expected_type() -> ElementType {
        ElementType::I16
    }

    open spec fn spec_unwrap(v: Value) -> Self {
        match v {
            Value::TensorI16(t) => t,
            _ => vstd::pervasive::arbitrary(),
        }
    }

    fn try_from_value(v: Value) -> (r: Result<Self, OpError>) {
        v.try_into_i16()
    }
}

impl TryFromValue for Tensor<i32> {
    open spec fn spec_expected_type() -> ElementType {
        ElementType::I32
    }

    open spec fn spec_unwrap(v: Value) -> Self {
        match v {
            Value::TensorI32(t) => t,
            _ => vstd::pervasive::arbitrary(),
        }
    }

    fn try_from_value(v: Value) -> (r: Result<Self, OpError>) {
        v.try_into_i32()
    }
}

impl TryFromValue for Tensor<i64> {
    open spec fn spec_expected_type() -> ElementType {
        ElementType::I64
    }

    open spec fn spec_unwrap(v: Value) -> Self {
        match v {
            Value::TensorI64(t) => t,
            _ => vstd::pervasive::arbitrary(),
        }
    }

    fn try_from_value(v: Value) -> (r: Result<Self, OpError>) {
        v.try_into_i64()
    }
}

impl TryFromValue for Tensor<u8> {
    open spec fn spec_expected_type() -> ElementType {
        ElementType::U8
    }

    open spec fn spec_unwrap(v: Value) -> Self {
        match v {
            Value::TensorU8(t) => t,
            _ => vstd::pervasive::arbitrary(),
        }
    }

    fn try_from_value(v: Value) -> (r: Result<Self, OpError>) {
        v.try_into_u8()
    }
}

impl TryFromValue for Tensor<u16> {
    open spec fn spec_expected_type() -> ElementType {
        ElementType::U16
    }

    open spec fn spec_unwrap(v: Value) -> Self {
        match v {
            Value::TensorU16(t) => t,
            _ => vstd::pervasive::arbitrary(),
        }
    }

    fn try_from_value(v: Value) -> (r: Result<Self, OpError>) {
        v.try_into_u16()
    }
}

impl TryFromValue for Tensor<u32> {
    open spec fn spec_expected_type() -> ElementType {
        ElementType::U32
    }

    open spec fn spec_unwrap(v: Value) -> Self {
        match v {
            Value::TensorU32(t) => t,
            _ => vstd::pervasive::arbitrary(),
        }
    }

    fn try_from_value(v: Value) -> (r: Result<Self, OpError>) {
        v.try_into_u32()
    }
}

impl TryFromValue for Tensor<u64> {
    open spec fn spec_expected_type() -> ElementType {
        ElementType::U64
    }

    open spec fn spec_unwrap(v: Value) -> Self {
        match v {
            Value::TensorU64(t) => t,
            _ => vstd::pervasive::arbitrary(),
        }
    }

    fn try_from_value(v: Value) -> (r: Result<Self, OpError>) {
        v.try_into_u64()
    }
}

impl TryFromValue for TensorString {
    open spec fn spec_expected_type() -> ElementType {
        ElementType::Utf8
    }

    open spec fn spec_unwrap(v: Value) -> Self {
        match v {
            Value::TensorStr(t) => t,
            _ => vstd::pervasive::arbitrary(),
        }
    }

    fn try_from_value(v: Value) -> (r: Result<Self, OpError>) {
        v.try_into_str()
    }
}

} // verus!
