//! The closed set of scalar element kinds a tensor may hold, with the
//! bidirectional mapping to the host's wire-level type codes.

use vstd::prelude::*;

verus! {

/// Wire-level code the host uses for `f32` tensors.
pub const CODE_F32: u32 = 1;
/// Wire-level code the host uses for `u8` tensors.
pub const CODE_U8: u32 = 2;
/// Wire-level code the host uses for `i8` tensors.
pub const CODE_I8: u32 = 3;
/// Wire-level code the host uses for `u16` tensors.
pub const CODE_U16: u32 = 4;
/// Wire-level code the host uses for `i16` tensors.
pub const CODE_I16: u32 = 5;
/// Wire-level code the host uses for `i32` tensors.
pub const CODE_I32: u32 = 6;
/// Wire-level code the host uses for `i64` tensors.
pub const CODE_I64: u32 = 7;
/// Wire-level code the host uses for string tensors.
pub const CODE_STRING: u32 = 8;
/// Wire-level code the host uses for `bool` tensors.
pub const CODE_BOOL: u32 = 9;
/// Wire-level code the host uses for `f64` tensors.
pub const CODE_F64: u32 = 11;
/// Wire-level code the host uses for `u32` tensors.
pub const CODE_U32: u32 = 12;
/// Wire-level code the host uses for `u64` tensors.
pub const CODE_U64: u32 = 13;

/// A scalar element kind supported by this layer.
///
/// The set is closed: the host may know further codes, but tensors of any
/// other kind are rejected during decoding.
#[derive(Clone, Copy, Debug, PartialEq, Eq, Structural)]
pub enum ElementType {
    Bool,
    F32,
    F64,
    I8,
    I16,
    I32,
    I64,
    U8,
    U16,
    U32,
    U64,
    Utf8,
}

impl ElementType {
    /// The host's wire-level code for this element kind.
    pub open spec fn spec_encoding(self) -> u32 {
        match self {
            ElementType::Bool => CODE_BOOL,
            ElementType::F32 => CODE_F32,
            ElementType::F64 => CODE_F64,
            ElementType::I8 => CODE_I8,
            ElementType::I16 => CODE_I16,
            ElementType::I32 => CODE_I32,
            ElementType::I64 => CODE_I64,
            ElementType::U8 => CODE_U8,
            ElementType::U16 => CODE_U16,
            ElementType::U32 => CODE_U32,
            ElementType::U64 => CODE_U64,
            ElementType::Utf8 => CODE_STRING,
        }
    }

    /// Does the code denote an element kind of the closed set?
    pub open spec fn is_supported_code(code: u32) -> bool {
        ||| code == CODE_BOOL
        ||| code == CODE_F32
        ||| code == CODE_F64
        ||| code == CODE_I8
        ||| code == CODE_I16
        ||| code == CODE_I32
        ||| code == CODE_I64
        ||| code == CODE_U8
        ||| code == CODE_U16
        ||| code == CODE_U32
        ||| code == CODE_U64
        ||| code == CODE_STRING
    }

    /// Convert this element kind to the host's wire-level type code.
    pub fn to_ort_encoding(&self) -> (code: u32)
        ensures
            code == self.spec_encoding(),
    {
        match self {
            ElementType::Bool => CODE_BOOL,
            ElementType::F32 => CODE_F32,
            ElementType::F64 => CODE_F64,
            ElementType::I8 => CODE_I8,
            ElementType::I16 => CODE_I16,
            ElementType::I32 => CODE_I32,
            ElementType::I64 => CODE_I64,
            ElementType::U8 => CODE_U8,
            ElementType::U16 => CODE_U16,
            ElementType::U32 => CODE_U32,
            ElementType::U64 => CODE_U64,
            ElementType::Utf8 => CODE_STRING,
        }
    }

    /// Recover the element kind from the host's wire-level type code.
    ///
    /// Fails exactly on codes outside the closed set; the failing code is
    /// reported so callers can surface it.
    pub fn try_from_ort_encoding(code: u32) -> (r: Result<ElementType, u32>)
        ensures
            match r {
                Ok(t) => t.spec_encoding() == code,
                Err(c) => c == code && !ElementType::is_supported_code(code),
            },
    {
        let r: Result<ElementType, u32> = match code {
            CODE_BOOL => Ok(ElementType::Bool),
            CODE_F32 => Ok(ElementType::F32),
            CODE_F64 => Ok(ElementType::F64),
            CODE_I8 => Ok(ElementType::I8),
            CODE_I16 => Ok(ElementType::I16),
            CODE_I32 => Ok(ElementType::I32),
            CODE_I64 => Ok(ElementType::I64),
            CODE_U8 => Ok(ElementType::U8),
            CODE_U16 => Ok(ElementType::U16),
            CODE_U32 => Ok(ElementType::U32),
            CODE_U64 => Ok(ElementType::U64),
            CODE_STRING => Ok(ElementType::Utf8),
            _ => Err(code),
        };
        r
    }
}

/// Every element kind's own code is a supported code.
pub proof fn lemma_code_supported(t: ElementType)
    ensures
        ElementType::is_supported_code(t.spec_encoding()),
{
}

/// The wire-level encoding is injective: two element kinds with the same
/// code are the same kind. Together with the contract of
/// `try_from_ort_encoding` this makes the mapping a bijection between the
/// closed set and its codes.
pub proof fn lemma_encoding_injective(a: ElementType, b: ElementType)
    requires
        a.spec_encoding() == b.spec_encoding(),
    ensures
        a == b,
{
}

} // verus!
