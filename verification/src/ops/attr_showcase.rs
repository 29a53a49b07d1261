//! A kernel that reads one attribute of every kind the host offers at
//! construction time. Its integer and string outputs are computed here;
//! what it does with its floating-point attribute is arithmetic an
//! unverified consumer carries.

use vstd::prelude::*;

use crate::attributes::AttributeValue;
use crate::attributes::KernelInfo;
use crate::error::OpError;
use crate::tensor::Tensor;
use crate::value::Value;

verus! {

/// One attribute of each kind, read and validated at construction: a
/// floating-point scalar (as its bit pattern), an integer, a string, a
/// `u8` tensor, and two arrays.
#[derive(Debug)]
pub struct AttrShowcase {
    pub float_attr_bits: u32,
    pub int_attr: i64,
    pub string_attr: String,
    pub u8_tensor: Tensor<u8>,
    pub floats_attr_bits: Vec<u32>,
    pub ints_attr: Vec<i64>,
}

impl AttrShowcase {
    /// Do the node's attributes carry everything this kernel demands, each
    /// under its demanded type?
    pub open spec fn spec_attrs_ok(info: KernelInfo) -> bool {
        &&& info.spec_find("float_attr"@) matches Some(a) && a is F32Bits
        &&& info.spec_find("int_attr"@) matches Some(a) && a is I64
        &&& info.spec_find("string_attr"@) matches Some(a) && a is Text
        &&& info.spec_find("u8_tensor"@) matches Some(a) && a matches AttributeValue::Tensor(t)
            && t.code == crate::element_type::CODE_U8
        &&& info.spec_find("floats_attr"@) matches Some(a) && a is F32BitsArray
        &&& info.spec_find("ints_attr"@) matches Some(a) && a is I64Array
    }

    /// Read all six attributes; construction succeeds exactly when every
    /// one is present under its demanded type.
    pub fn kernel_create(info: &KernelInfo) -> (r: Result<AttrShowcase, OpError>)
        requires
            info.wf(),
        ensures
            r is Ok <==> AttrShowcase::spec_attrs_ok(*info),
            r matches Ok(k) ==> {
                &&& info.spec_find("float_attr"@) == Some(AttributeValue::F32Bits(
                    k.float_attr_bits,
                ))
                &&& info.spec_find("int_attr"@) == Some(AttributeValue::I64(k.int_attr))
                &&& info.spec_find("string_attr"@) matches Some(a) && a matches
                    AttributeValue::Text(s) && s@ == k.string_attr@
                &&& info.spec_find("u8_tensor"@) matches Some(a) && a matches
                    AttributeValue::Tensor(t) && Value::TensorU8(k.u8_tensor).spec_like(
                    t.spec_value(),
                ) && k.u8_tensor.wf()
                &&& info.spec_find("floats_attr"@) matches Some(a) && a matches
                    AttributeValue::F32BitsArray(w) && w@ == k.floats_attr_bits@
                &&& info.spec_find("ints_attr"@) matches Some(a) && a matches
                    AttributeValue::I64Array(w) && w@ == k.ints_attr@
            },
    {
        let float_attr_bits = match info.get_attribute_f32_bits("float_attr") {
            Ok(v) => v,
            Err(e) => {
                return Err(e);
            },
        };
        let int_attr = match info.get_attribute_i64("int_attr") {
            Ok(v) => v,
            Err(e) => {
                return Err(e);
            },
        };
        let string_attr = match info.get_attribute_string("string_attr") {
            Ok(v) => v,
            Err(e) => {
                return Err(e);
            },
        };
        let u8_value = match info.get_attribute_tensor("u8_tensor") {
            Ok(v) => v,
            Err(e) => {
                return Err(e);
            },
        };
        let u8_tensor = match u8_value.try_into_u8() {
            Ok(t) => t,
            Err(e) => {
                return Err(e);
            },
        };
        let floats_attr_bits = match info.get_attribute_f32s_bits("floats_attr") {
            Ok(v) => v,
            Err(e) => {
                return Err(e);
            },
        };
        let ints_attr = match info.get_attribute_i64s("ints_attr") {
            Ok(v) => v,
            Err(e) => {
                return Err(e);
            },
        };
        Ok(AttrShowcase {
            float_attr_bits,
            int_attr,
            string_attr,
            u8_tensor,
            floats_attr_bits,
            ints_attr,
        })
    }
}

} // verus!
