//! A kernel that parses the strings of a tensor as datetimes against a
//! format read from a node attribute, yielding each element's second count
//! since the epoch — or nothing, for a string the format does not match.
//! The parse itself is an outside datetime library's; everything around it
//! is verified against the name given to its result.

use vstd::prelude::*;

use crate::attributes::KernelInfo;
use crate::error::OpError;

verus! {

/// What the outside datetime library computes for a text and a format: the
/// parsed datetime's seconds since the epoch (taken as UTC), or nothing
/// when the text does not match the format. A function of the two strings
/// alone.
pub uninterp spec fn datetime_seconds_of(s: Seq<char>, fmt: Seq<char>) -> Option<i64>;

/// Relies on chrono's `NaiveDateTime::parse_from_str` and
/// `DateTime::timestamp`: parsing a text against a format reads nothing but
/// the two strings, and the timestamp of the parsed naive datetime, taken
/// as UTC, is its second count since the epoch.
#[verifier::external_body]
fn parse_datetime_seconds(s: &str, fmt: &str) -> (r: Option<i64>)
    ensures
        r == datetime_seconds_of(s@, fmt@),
{
    match chrono::NaiveDateTime::parse_from_str(s, fmt) {
        Ok(dt) => Some(dt.and_utc().timestamp()),
        Err(_) => None,
    }
}

/// The datetime-parsing kernel: the format string its node's `fmt`
/// attribute carried at construction.
#[derive(Debug)]
pub struct ParseDateTime {
    pub fmt: String,
}

impl ParseDateTime {
    /// Read and validate the `fmt` attribute; a node without it, or with it
    /// under another type, never yields a kernel.
    pub fn kernel_create(info: &KernelInfo) -> (r: Result<ParseDateTime, OpError>)
        ensures
            match r {
                Ok(k) => info.spec_find("fmt"@) matches Some(a) && a matches
                    crate::attributes::AttributeValue::Text(s) && s@ == k.fmt@,
                Err(e) => match info.spec_find("fmt"@) {
                    Option::None => e matches OpError::AttributeMissing { name: n } && n@ == "fmt"@,
                    Option::Some(a) => !(a is Text) && (e matches OpError::AttributeTypeError {
                        name: n,
                    } && n@ == "fmt"@),
                },
            },
    {
        match info.get_attribute_string("fmt") {
            Ok(fmt) => Ok(ParseDateTime { fmt }),
            Err(e) => Err(e),
        }
    }

    /// Parse every string of the input against the kernel's format: element
    /// `i` of the result is exactly what the datetime library yields for
    /// element `i` of the input.
    pub fn parse_timestamps(&self, strs: &Vec<String>) -> (r: Vec<Option<i64>>)
        ensures
            r@.len() == strs@.len(),
            forall|i: int|
                #![trigger r@[i]]
                0 <= i < strs@.len() ==> r@[i] == datetime_seconds_of(strs@[i]@, self.fmt@),
    {
        let n = strs.len();
        let mut out: Vec<Option<i64>> = Vec::new();
        for i in 0..n
            invariant
                n == strs@.len(),
                out@.len() == i,
                forall|k: int|
                    #![trigger out@[k]]
                    0 <= k < i ==> out@[k] == datetime_seconds_of(strs@[k]@, self.fmt@),
        {
            out.push(parse_datetime_seconds(strs[i].as_str(), self.fmt.as_str()));
        }
        out
    }
}

} // verus!
