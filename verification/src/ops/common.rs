//! What several operators share: their error type and the verified
//! element-wise arithmetic they compute with.

use vstd::prelude::*;
use vstd::string::StringExecFns;

use crate::custom_op::ErrorText;
use crate::tensor::copy_vec;
use crate::tensor::Tensor;

verus! {

/// The failures the bundled operators can report from a compute call.
#[derive(Clone, Copy, Debug, PartialEq, Eq, Structural)]
pub enum ExampleError {
    /// Two inputs that must share a shape do not.
    ShapeMismatch,
    /// An input the operator demands to be all-false holds a true element.
    NonZeroInput,
}

impl ErrorText for ExampleError {
    open spec fn spec_message(&self) -> Seq<char> {
        match self {
            ExampleError::ShapeMismatch => "input shapes differ"@,
            ExampleError::NonZeroInput => "non-zero input found"@,
        }
    }

    fn message(&self) -> (r: String) {
        match self {
            ExampleError::ShapeMismatch => String::from_str("input shapes differ"),
            ExampleError::NonZeroInput => String::from_str("non-zero input found"),
        }
    }
}

/// Add a constant to every element of an `i64` tensor, wrapping on
/// overflow.
pub fn add_scalar_i64_wrapping(t: &Tensor<i64>, c: i64) -> (r: Tensor<i64>)
    ensures
        r.shape@ == t.shape@,
        r.data@.len() == t.data@.len(),
        forall|i: int|
            #![trigger r.data@[i]]
            0 <= i < t.data@.len() ==> r.data@[i] == vstd::wrapping::i64_specs::wrapping_add(
                t.data@[i],
                c,
            ),
        t.wf() ==> r.wf(),
{
    let n = t.data.len();
    let mut data: Vec<i64> = Vec::new();
    for i in 0..n
        invariant
            n == t.data@.len(),
            data@.len() == i,
            forall|k: int|
                #![trigger data@[k]]
                0 <= k < i ==> data@[k] == vstd::wrapping::i64_specs::wrapping_add(t.data@[k], c),
    {
        data.push(t.data[i].wrapping_add(c));
    }
    Tensor { data, shape: copy_vec(&t.shape) }
}

/// Add two `i64` tensors element by element, wrapping on overflow; the two
/// must share a shape.
pub fn add_tensors_i64_wrapping(a: &Tensor<i64>, b: &Tensor<i64>) -> (r: Result<
    Tensor<i64>,
    ExampleError,
>)
    requires
        a.wf(),
        b.wf(),
    ensures
        match r {
            Ok(t) => {
                &&& a.shape@ == b.shape@
                &&& t.shape@ == a.shape@
                &&& t.data@.len() == a.data@.len()
                &&& forall|i: int|
                    #![trigger t.data@[i]]
                    0 <= i < a.data@.len() ==> t.data@[i]
                        == vstd::wrapping::i64_specs::wrapping_add(a.data@[i], b.data@[i])
                &&& t.wf()
            },
            Err(e) => a.shape@ != b.shape@ && e == ExampleError::ShapeMismatch,
        },
{
    if !crate::tensor::shapes_equal(&a.shape, &b.shape) {
        return Err(ExampleError::ShapeMismatch);
    }
    let n = a.data.len();
    let mut data: Vec<i64> = Vec::new();
    for i in 0..n
        invariant
            n == a.data@.len(),
            a.data@.len() == b.data@.len(),
            data@.len() == i,
            forall|k: int|
                #![trigger data@[k]]
                0 <= k < i ==> data@[k] == vstd::wrapping::i64_specs::wrapping_add(
                    a.data@[k],
                    b.data@[k],
                ),
    {
        data.push(a.data[i].wrapping_add(b.data[i]));
    }
    Ok(Tensor { data, shape: copy_vec(&a.shape) })
}

/// Is any element of a `bool` tensor true?
pub fn any_true(t: &Tensor<bool>) -> (r: bool)
    ensures
        r == exists|i: int| 0 <= i < t.data@.len() && t.data@[i],
{
    let n = t.data.len();
    for i in 0..n
        invariant
            n == t.data@.len(),
            forall|k: int| 0 <= k < i ==> !t.data@[k],
    {
        if t.data[i] {
            return true;
        }
    }
    false
}

/// Append a separator and a suffix to every string of a list, as a kernel
/// decorating a string tensor does.
pub fn append_joined(strs: &Vec<String>, suffix: &str) -> (r: Vec<String>)
    ensures
        r@.len() == strs@.len(),
        forall|i: int|
            #![trigger r@[i]]
            0 <= i < strs@.len() ==> r@[i]@ == strs@[i]@ + " + "@ + suffix@,
{
    let n = strs.len();
    let mut out: Vec<String> = Vec::new();
    for i in 0..n
        invariant
            n == strs@.len(),
            out@.len() == i,
            forall|k: int|
                #![trigger out@[k]]
                0 <= k < i ==> out@[k]@ == strs@[k]@ + " + "@ + suffix@,
    {
        let mut s = strs[i].as_str().to_owned();
        s.append(" + ");
        s.append(suffix);
        out.push(s);
    }
    out
}

} // verus!
