//! The node-attribute store a kernel reads at construction time: typed
//! lookups by name over the attributes the host recorded for the operator's
//! graph node.

use vstd::prelude::*;
use vstd::string::StringExecFns;

use crate::element_type::ElementType;
use crate::error::OpError;
use crate::host::decode_value_ref;
use crate::host::HostTensor;
use crate::tensor::copy_vec;
use crate::value::Value;

verus! {

/// One attribute value as the host stores it. Floating-point attributes are
/// carried as raw bit patterns.
#[derive(Debug)]
pub enum AttributeValue {
    I64(i64),
    F32Bits(u32),
    Text(String),
    I64Array(Vec<i64>),
    F32BitsArray(Vec<u32>),
    Tensor(HostTensor),
}

/// The attributes of one operator node, as handed to `kernel_create`:
/// name-value pairs in the host's order.
#[derive(Debug)]
pub struct KernelInfo {
    pub attrs: Vec<(String, AttributeValue)>,
}

impl KernelInfo {
    /// The host's invariant: every attribute tensor is well-formed.
    pub open spec fn wf(self) -> bool {
        forall|i: int|
            #![trigger self.attrs@[i]]
            0 <= i < self.attrs@.len() ==> match self.attrs@[i].1 {
                AttributeValue::Tensor(t) => t.wf(),
                _ => true,
            }
    }

    /// Wrap the attribute list the host reports for a node.
    pub fn from_ort(attrs: Vec<(String, AttributeValue)>) -> (r: KernelInfo)
        ensures
            r.attrs == attrs,
    {
        KernelInfo { attrs }
    }

    /// The position of the first attribute named `name`, scanning from
    /// position `i`; the length of the list when none is.
    pub open spec fn spec_index_from(self, name: Seq<char>, i: int) -> int
        decreases self.attrs@.len() - i,
    {
        if i < 0 || i >= self.attrs@.len() {
            self.attrs@.len() as int
        } else if self.attrs@[i].0@ == name {
            i
        } else {
            self.spec_index_from(name, i + 1)
        }
    }

    /// The first attribute named `name`, if the node carries one.
    pub open spec fn spec_find(self, name: Seq<char>) -> Option<AttributeValue> {
        let i = self.spec_index_from(name, 0);
        if i < self.attrs@.len() {
            Some(self.attrs@[i].1)
        } else {
            None
        }
    }

    /// Find the first attribute named `name`.
    fn find(&self, name: &str) -> (r: Option<&AttributeValue>)
        ensures
            match r {
                Option::Some(a) => self.spec_find(name@) == Some(*a),
                Option::None => self.spec_find(name@) is None,
            },
    {
        let key: String = name.to_owned();
        let n = self.attrs.len();
        for i in 0..n
            invariant
                n == self.attrs@.len(),
                key@ == name@,
                forall|k: int|
                    #![trigger self.attrs@[k]]
                    0 <= k < i ==> self.attrs@[k].0@ != name@,
        {
            if self.attrs[i].0 == key {
                proof {
                    lemma_index_from_stops(*self, name@, 0, i as int);
                }
                return Some(&self.attrs[i].1);
            }
        }
        proof {
            lemma_index_from_none(*self, name@, 0);
        }
        None
    }

    /// Read an `i64` attribute: the first attribute of that name must carry
    /// an `i64`.
    pub fn get_attribute_i64(&self, name: &str) -> (r: Result<i64, OpError>)
        ensures
            match r {
                Ok(v) => self.spec_find(name@) == Some(AttributeValue::I64(v)),
                Err(e) => match self.spec_find(name@) {
                    Option::None => e matches OpError::AttributeMissing { name: n } && n@ == name@,
                    Option::Some(a) => !(a is I64) && (e matches OpError::AttributeTypeError {
                        name: n,
                    } && n@ == name@),
                },
            },
    {
        match self.find(name) {
            Some(AttributeValue::I64(v)) => Ok(*v),
            Some(_) => Err(OpError::AttributeTypeError { name: name.to_owned() }),
            None => Err(OpError::AttributeMissing { name: name.to_owned() }),
        }
    }

    /// Read the bit pattern of a 32-bit floating-point attribute.
    pub fn get_attribute_f32_bits(&self, name: &str) -> (r: Result<u32, OpError>)
        ensures
            match r {
                Ok(v) => self.spec_find(name@) == Some(AttributeValue::F32Bits(v)),
                Err(e) => match self.spec_find(name@) {
                    Option::None => e matches OpError::AttributeMissing { name: n } && n@ == name@,
                    Option::Some(a) => !(a is F32Bits) && (e matches OpError::AttributeTypeError {
                        name: n,
                    } && n@ == name@),
                },
            },
    {
        match self.find(name) {
            Some(AttributeValue::F32Bits(v)) => Ok(*v),
            Some(_) => Err(OpError::AttributeTypeError { name: name.to_owned() }),
            None => Err(OpError::AttributeMissing { name: name.to_owned() }),
        }
    }

    /// Read a string attribute.
    pub fn get_attribute_string(&self, name: &str) -> (r: Result<String, OpError>)
        ensures
            match r {
                Ok(v) => self.spec_find(name@) matches Some(a) && a matches AttributeValue::Text(s)
                    && s@ == v@,
                Err(e) => match self.spec_find(name@) {
                    Option::None => e matches OpError::AttributeMissing { name: n } && n@ == name@,
                    Option::Some(a) => !(a is Text) && (e matches OpError::AttributeTypeError {
                        name: n,
                    } && n@ == name@),
                },
            },
    {
        match self.find(name) {
            Some(AttributeValue::Text(v)) => Ok(v.as_str().to_owned()),
            Some(_) => Err(OpError::AttributeTypeError { name: name.to_owned() }),
            None => Err(OpError::AttributeMissing { name: name.to_owned() }),
        }
    }

    /// Read an `i64`-array attribute.
    pub fn get_attribute_i64s(&self, name: &str) -> (r: Result<Vec<i64>, OpError>)
        ensures
            match r {
                Ok(v) => self.spec_find(name@) matches Some(a) && a matches
                    AttributeValue::I64Array(w) && w@ == v@,
                Err(e) => match self.spec_find(name@) {
                    Option::None => e matches OpError::AttributeMissing { name: n } && n@ == name@,
                    Option::Some(a) => !(a is I64Array) && (e matches OpError::AttributeTypeError {
                        name: n,
                    } && n@ == name@),
                },
            },
    {
        match self.find(name) {
            Some(AttributeValue::I64Array(v)) => Ok(copy_vec(v)),
            Some(_) => Err(OpError::AttributeTypeError { name: name.to_owned() }),
            None => Err(OpError::AttributeMissing { name: name.to_owned() }),
        }
    }

    /// Read the bit patterns of a 32-bit floating-point array attribute.
    pub fn get_attribute_f32s_bits(&self, name: &str) -> (r: Result<Vec<u32>, OpError>)
        ensures
            match r {
                Ok(v) => self.spec_find(name@) matches Some(a) && a matches
                    AttributeValue::F32BitsArray(w) && w@ == v@,
                Err(e) => match self.spec_find(name@) {
                    Option::None => e matches OpError::AttributeMissing { name: n } && n@ == name@,
                    Option::Some(a) => !(a is F32BitsArray) && (e matches
                        OpError::AttributeTypeError { name: n } && n@ == name@),
                },
            },
    {
        match self.find(name) {
            Some(AttributeValue::F32BitsArray(v)) => Ok(copy_vec(v)),
            Some(_) => Err(OpError::AttributeTypeError { name: name.to_owned() }),
            None => Err(OpError::AttributeMissing { name: name.to_owned() }),
        }
    }

    /// Materialize a tensor attribute as a tagged value, the same way an
    /// input tensor is decoded.
    pub fn get_attribute_tensor(&self, name: &str) -> (r: Result<Value, OpError>)
        requires
            self.wf(),
        ensures
            match r {
                Ok(v) => self.spec_find(name@) matches Some(a) && a matches AttributeValue::Tensor(
                    t,
                ) && t.wf() && ElementType::is_supported_code(t.code) && v.spec_like(
                    t.spec_value(),
                ) && v.wf(),
                Err(e) => match self.spec_find(name@) {
                    Option::None => e matches OpError::AttributeMissing { name: n } && n@ == name@,
                    Option::Some(a) => match a {
                        AttributeValue::Tensor(t) => !ElementType::is_supported_code(t.code) && e
                            == (OpError::UnsupportedElementType { code: t.code }),
                        _ => e matches OpError::AttributeTypeError { name: n } && n@ == name@,
                    },
                },
            },
    {
        match self.find(name) {
            Some(AttributeValue::Tensor(t)) => {
                proof {
                    lemma_found_tensor_wf(*self, name@);
                }
                decode_value_ref(t)
            },
            Some(_) => Err(OpError::AttributeTypeError { name: name.to_owned() }),
            None => Err(OpError::AttributeMissing { name: name.to_owned() }),
        }
    }
}

/// A clean scan that hits a match at `i` stops there.
proof fn lemma_index_from_stops(info: KernelInfo, name: Seq<char>, from: int, i: int)
    requires
        0 <= from <= i < info.attrs@.len(),
        info.attrs@[i].0@ == name,
        forall|k: int| #![trigger info.attrs@[k]] 0 <= k < i ==> info.attrs@[k].0@ != name,
    ensures
        info.spec_index_from(name, from) == i,
    decreases i - from,
{
    if from < i {
        lemma_index_from_stops(info, name, from + 1, i);
    }
}

/// A scan over a list with no match reports the list's length.
proof fn lemma_index_from_none(info: KernelInfo, name: Seq<char>, from: int)
    requires
        0 <= from <= info.attrs@.len(),
        forall|k: int|
            #![trigger info.attrs@[k]]
            0 <= k < info.attrs@.len() ==> info.attrs@[k].0@ != name,
    ensures
        info.spec_index_from(name, from) == info.attrs@.len(),
    decreases info.attrs@.len() - from,
{
    if from < info.attrs@.len() {
        lemma_index_from_none(info, name, from + 1);
    }
}

/// A well-formed attribute store only hands out well-formed tensors.
proof fn lemma_found_tensor_wf(info: KernelInfo, name: Seq<char>)
    requires
        info.wf(),
        info.spec_find(name) matches Some(a) && a is Tensor,
    ensures
        info.spec_find(name) matches Some(a) && a matches AttributeValue::Tensor(t) && t.wf(),
{
    let i = info.spec_index_from(name, 0);
    lemma_index_from_range(info, name, 0);
    assert(info.attrs@[i] == info.attrs@[i]);
}

/// The scan's result always lies between its start and the list's length.
proof fn lemma_index_from_range(info: KernelInfo, name: Seq<char>, from: int)
    requires
        0 <= from <= info.attrs@.len(),
    ensures
        from <= info.spec_index_from(name, from) <= info.attrs@.len(),
    decreases info.attrs@.len() - from,
{
    if from < info.attrs@.len() {
        lemma_index_from_range(info, name, from + 1);
    }
}

} // verus!
