//! The error taxonomy of the marshalling layer, and the host status objects
//! errors are converted into at the boundary.

use vstd::prelude::*;
use vstd::string::StringExecFns;

use crate::element_type::ElementType;

verus! {

/// Host status code used for every error this layer reports: the host's
/// "runtime exception" code.
pub const RUNTIME_EXCEPTION_CODE: u32 = 6;

/// An error raised by the marshalling layer itself (user kernels carry their
/// own error types, which this layer only renders as text).
#[derive(Clone, Debug)]
pub enum OpError {
    /// The host reported a type code outside the closed set of supported
    /// element kinds.
    UnsupportedElementType { code: u32 },
    /// A value of one element kind was decoded through a slot expecting
    /// another.
    TypeMismatch { expected: ElementType, found: ElementType },
    /// Fewer (or, for a fixed signature, a different number of) values were
    /// supplied than the signature demands. `minimum` is the least
    /// acceptable count; `exact` says whether only exactly that count is
    /// acceptable.
    ArityError { minimum: usize, exact: bool, found: usize },
    /// A kernel asked for an attribute the node does not carry.
    AttributeMissing { name: String },
    /// A kernel asked for an attribute under the wrong type.
    AttributeTypeError { name: String },
    /// A string tensor element was not valid UTF-8.
    InvalidUtf8 { index: usize },
    /// A kernel produced an output for a slot index the host never
    /// declared.
    OutputIndexOutOfRange { index: usize, count: usize },
    /// The concatenated bytes of a string tensor would not fit in one
    /// buffer on this machine.
    StringDataTooLarge,
    /// A string tensor was to be written with a number of strings different
    /// from its shape's element count.
    StringCountMismatch { expected: usize, found: usize },
}

/// Decimal digit characters, used to render counts and codes in messages.
pub open spec fn spec_digit(d: nat) -> Seq<char> {
    if d == 0 {
        "0"@
    } else if d == 1 {
        "1"@
    } else if d == 2 {
        "2"@
    } else if d == 3 {
        "3"@
    } else if d == 4 {
        "4"@
    } else if d == 5 {
        "5"@
    } else if d == 6 {
        "6"@
    } else if d == 7 {
        "7"@
    } else if d == 8 {
        "8"@
    } else {
        "9"@
    }
}

/// The usual decimal rendering of a natural number, most significant digit
/// first, without leading zeros (except for zero itself).
pub open spec fn spec_decimal(n: nat) -> Seq<char>
    decreases n,
{
    if n < 10 {
        spec_digit(n)
    } else {
        spec_decimal(n / 10) + spec_digit(n % 10)
    }
}

fn digit_str(d: u64) -> (c: &'static str)
    requires
        d < 10,
    ensures
        c@ == spec_digit(d as nat),
{
    match d {
        0 => "0",
        1 => "1",
        2 => "2",
        3 => "3",
        4 => "4",
        5 => "5",
        6 => "6",
        7 => "7",
        8 => "8",
        _ => "9",
    }
}

/// Render a number in decimal.
pub fn u64_to_decimal(n: u64) -> (s: String)
    ensures
        s@ == spec_decimal(n as nat),
    decreases n,
{
    if n < 10 {
        String::from_str(digit_str(n))
    } else {
        let mut s = u64_to_decimal(n / 10);
        s.append(digit_str(n % 10));
        s
    }
}

fn usize_to_decimal(n: usize) -> (s: String)
    ensures
        s@ == spec_decimal(n as nat),
{
    u64_to_decimal(n as u64)
}

impl ElementType {
    /// The element kind's name as it appears in error messages.
    pub open spec fn spec_kind_name(self) -> Seq<char> {
        match self {
            ElementType::Bool => "Bool"@,
            ElementType::F32 => "F32"@,
            ElementType::F64 => "F64"@,
            ElementType::I8 => "I8"@,
            ElementType::I16 => "I16"@,
            ElementType::I32 => "I32"@,
            ElementType::I64 => "I64"@,
            ElementType::U8 => "U8"@,
            ElementType::U16 => "U16"@,
            ElementType::U32 => "U32"@,
            ElementType::U64 => "U64"@,
            ElementType::Utf8 => "String"@,
        }
    }

    /// Render the element kind's name.
    pub fn kind_name(&self) -> (r: &'static str)
        ensures
            r@ == self.spec_kind_name(),
    {
        match self {
            ElementType::Bool => "Bool",
            ElementType::F32 => "F32",
            ElementType::F64 => "F64",
            ElementType::I8 => "I8",
            ElementType::I16 => "I16",
            ElementType::I32 => "I32",
            ElementType::I64 => "I64",
            ElementType::U8 => "U8",
            ElementType::U16 => "U16",
            ElementType::U32 => "U32",
            ElementType::U64 => "U64",
            ElementType::Utf8 => "String",
        }
    }
}

impl OpError {
    /// The exact text of this error's message.
    pub open spec fn spec_message(self) -> Seq<char> {
        match self {
            OpError::UnsupportedElementType { code } => "unsupported tensor element type: '"@
                + spec_decimal(code as nat) + "'"@,
            OpError::TypeMismatch { expected, found } => "expected '"@ + expected.spec_kind_name()
                + "' tensor; found '"@ + found.spec_kind_name() + "' tensor"@,
            OpError::ArityError { minimum, exact, found } => if exact {
                "expected "@ + spec_decimal(minimum as nat) + " inputs; found "@ + spec_decimal(
                    found as nat,
                )
            } else {
                "expected at least "@ + spec_decimal(minimum as nat) + " inputs; found "@
                    + spec_decimal(found as nat)
            },
            OpError::AttributeMissing { name } => "missing attribute '"@ + name@ + "'"@,
            OpError::AttributeTypeError { name } => "attribute '"@ + name@
                + "' has the wrong type"@,
            OpError::InvalidUtf8 { index } => "string tensor element "@ + spec_decimal(index as nat)
                + " is not valid UTF-8"@,
            OpError::OutputIndexOutOfRange { index, count } => "no output slot "@ + spec_decimal(
                index as nat,
            ) + ": the host declared "@ + spec_decimal(count as nat) + " outputs"@,
            OpError::StringDataTooLarge => "string tensor data does not fit in one buffer"@,
            OpError::StringCountMismatch { expected, found } => "string tensor shape holds "@
                + spec_decimal(expected as nat) + " elements; found "@ + spec_decimal(found as nat)
                + " strings"@,
        }
    }

    /// Render this error as text, for inclusion in a host status object.
    pub fn message(&self) -> (r: String)
        ensures
            r@ == self.spec_message(),
    {
        match self {
            OpError::UnsupportedElementType { code } => {
                let mut s = String::from_str("unsupported tensor element type: '");
                s.append(u64_to_decimal(*code as u64).as_str());
                s.append("'");
                s
            },
            OpError::TypeMismatch { expected, found } => {
                let mut s = String::from_str("expected '");
                s.append(expected.kind_name());
                s.append("' tensor; found '");
                s.append(found.kind_name());
                s.append("' tensor");
                s
            },
            OpError::ArityError { minimum, exact, found } => {
                let mut s = if *exact {
                    String::from_str("expected ")
                } else {
                    String::from_str("expected at least ")
                };
                s.append(usize_to_decimal(*minimum).as_str());
                s.append(" inputs; found ");
                s.append(usize_to_decimal(*found).as_str());
                s
            },
            OpError::AttributeMissing { name } => {
                let mut s = String::from_str("missing attribute '");
                s.append(name.as_str());
                s.append("'");
                s
            },
            OpError::AttributeTypeError { name } => {
                let mut s = String::from_str("attribute '");
                s.append(name.as_str());
                s.append("' has the wrong type");
                s
            },
            OpError::InvalidUtf8 { index } => {
                let mut s = String::from_str("string tensor element ");
                s.append(usize_to_decimal(*index).as_str());
                s.append(" is not valid UTF-8");
                s
            },
            OpError::OutputIndexOutOfRange { index, count } => {
                let mut s = String::from_str("no output slot ");
                s.append(usize_to_decimal(*index).as_str());
                s.append(": the host declared ");
                s.append(usize_to_decimal(*count).as_str());
                s.append(" outputs");
                s
            },
            OpError::StringDataTooLarge => {
                String::from_str("string tensor data does not fit in one buffer")
            },
            OpError::StringCountMismatch { expected, found } => {
                let mut s = String::from_str("string tensor shape holds ");
                s.append(usize_to_decimal(*expected).as_str());
                s.append(" elements; found ");
                s.append(usize_to_decimal(*found).as_str());
                s.append(" strings");
                s
            },
        }
    }
}

/// A status object in the form the host owns independently: an error code
/// plus a message copied out of this layer's memory.
#[derive(Clone, Debug)]
pub struct ErrorStatus {
    pub code: u32,
    pub msg: String,
}

impl ErrorStatus {
    /// Build a status from an error code and a message.
    pub fn new(code: u32, msg: String) -> (r: ErrorStatus)
        ensures
            r.code == code,
            r.msg == msg,
    {
        ErrorStatus { code, msg }
    }

    /// The message an operator's failure is reported under: the operator's
    /// name, a separator, and the error's own text.
    pub open spec fn spec_op_message(op_name: Seq<char>, msg: Seq<char>) -> Seq<char> {
        op_name + ": "@ + msg
    }

    /// Build the status reported when the operator `op_name` fails with the
    /// error text `msg`, carrying the host's runtime-exception code.
    pub fn for_op(op_name: &str, msg: &str) -> (r: ErrorStatus)
        ensures
            r.code == RUNTIME_EXCEPTION_CODE,
            r.msg@ == ErrorStatus::spec_op_message(op_name@, msg@),
    {
        let mut s = String::from_str(op_name);
        s.append(": ");
        s.append(msg);
        ErrorStatus::new(RUNTIME_EXCEPTION_CODE, s)
    }
}

/// Wrap an optional status into a result, as the host's calling convention
/// has it: the absence of a status object means success.
pub fn status_to_result(status: Option<ErrorStatus>) -> (r: Result<(), ErrorStatus>)
    ensures
        match status {
            Option::None => r is Ok,
            Option::Some(s) => r == Result::<(), ErrorStatus>::Err(s),
        },
{
    match status {
        Option::None => Ok(()),
        Option::Some(s) => Err(s),
    }
}

} // verus!
