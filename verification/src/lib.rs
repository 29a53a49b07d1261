//! A typed tensor-marshalling and operator-registration layer for a
//! computation-graph host runtime.
//!
//! The host understands only type-erased tensors (an element-type code, a
//! shape, and a flat buffer) and a table of per-operator callbacks. Kernel
//! authors want ordinary typed functions over shaped arrays. This crate
//! provides the adapter in between: element-type tags, tagged tensor values,
//! arity- and type-checked decoding of input sequences (including a variadic
//! tail), encoding of outputs, attribute lookup for kernel construction, and
//! the operator table the host queries before dispatching.

use vstd::prelude::*;

pub mod custom_op;
pub mod element_type;
pub mod attributes;
pub mod error;
pub mod host;
pub mod inputs;
pub mod lifecycle;
pub mod ops;
pub mod outputs;
pub mod registration;
pub mod tensor;
pub mod value;

pub use element_type::ElementType;
pub use error::ErrorStatus;
pub use error::OpError;

verus! {

/// The version of the host API this layer is written against.
pub const API_VERSION: u32 = 16;

} // verus!
