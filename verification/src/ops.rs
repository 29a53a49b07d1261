//! Operators built on the marshalling layer. They are consumers of the
//! layer, not part of it: each shows one shape of the adapter at work — a
//! construction-time attribute, a fixed two-input arithmetic kernel, a
//! variadic pass-through, a fallible compute, the full attribute surface,
//! and a string-parsing kernel backed by an outside datetime library.

pub mod add;
pub mod add_constant;
pub mod attr_showcase;
pub mod common;
pub mod datetime;
pub mod fallible_op;
pub mod variadic_identity;
