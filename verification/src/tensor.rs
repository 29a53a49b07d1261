//! Shaped tensor payloads: the element-count arithmetic shared by every
//! tensor kind, the generic shaped buffer for fixed-width elements, and the
//! concatenated-buffer representation of string tensors.

use vstd::prelude::*;
use vstd::slice::slice_to_vec;
use vstd::utf8::decode_utf8;
use vstd::utf8::encode_utf8;
use vstd::utf8::encode_utf8_decode_utf8;
use vstd::utf8::encode_utf8_valid_utf8;
use vstd::utf8::valid_utf8;

use crate::error::OpError;

verus! {

/// The number of elements a tensor of the given shape holds: the product of
/// its dimensions (one, for the zero-dimensional scalar shape).
pub open spec fn spec_element_count(shape: Seq<usize>) -> nat
    decreases shape.len(),
{
    if shape.len() == 0 {
        1
    } else {
        spec_element_count(shape.drop_last()) * (shape.last() as nat)
    }
}

/// A zero dimension anywhere makes the element count zero.
pub proof fn lemma_element_count_zero(shape: Seq<usize>, i: int)
    requires
        0 <= i < shape.len(),
        shape[i] == 0,
    ensures
        spec_element_count(shape) == 0,
    decreases shape.len(),
{
    if i == shape.len() - 1 {
        assert(spec_element_count(shape) == spec_element_count(shape.drop_last()) * (
        shape.last() as nat));
        assert(shape.last() == shape[i]);
    } else {
        lemma_element_count_zero(shape.drop_last(), i);
        assert(spec_element_count(shape) == 0 * (shape.last() as nat));
    }
}

/// With no zero dimension past index `j`, the element count of the whole
/// shape is at least that of its first `j` dimensions.
pub proof fn lemma_element_count_monotone(shape: Seq<usize>, j: int)
    requires
        0 <= j <= shape.len(),
        forall|k: int| j <= k < shape.len() ==> shape[k] >= 1,
    ensures
        spec_element_count(shape) >= spec_element_count(shape.take(j)),
    decreases shape.len() - j,
{
    if j == shape.len() {
        assert(shape.take(j) =~= shape);
    } else {
        lemma_element_count_monotone(shape, j + 1);
        assert(shape.take(j + 1).drop_last() =~= shape.take(j));
        assert(spec_element_count(shape.take(j + 1)) == spec_element_count(shape.take(j))
            * shape[j]);
        assert(spec_element_count(shape.take(j)) * shape[j] >= spec_element_count(shape.take(j)))
            by (nonlinear_arith)
            requires
                shape[j] >= 1,
        ;
    }
}

/// Compute the element count of a shape, or report that it does not fit in
/// the machine's word size.
pub fn element_count(shape: &Vec<usize>) -> (r: Option<usize>)
    ensures
        match r {
            Option::Some(c) => c == spec_element_count(shape@),
            Option::None => spec_element_count(shape@) > usize::MAX,
        },
{
    for i in 0..shape.len()
        invariant
            forall|k: int| 0 <= k < i ==> shape@[k] >= 1,
    {
        if shape[i] == 0 {
            proof {
                lemma_element_count_zero(shape@, i as int);
            }
            return Some(0);
        }
    }
    let mut acc: usize = 1;
    for i in 0..shape.len()
        invariant
            acc == spec_element_count(shape@.take(i as int)),
            forall|k: int| 0 <= k < shape@.len() ==> shape@[k] >= 1,
    {
        proof {
            assert(shape@.take(i + 1).drop_last() =~= shape@.take(i as int));
        }
        match acc.checked_mul(shape[i]) {
            Some(next) => {
                acc = next;
            },
            None => {
                proof {
                    lemma_element_count_monotone(shape@, i + 1);
                }
                return None;
            },
        }
    }
    proof {
        assert(shape@.take(shape@.len() as int) =~= shape@);
    }
    Some(acc)
}

/// Copy a vector of plain elements; the copy's contents equal the
/// original's.
pub fn copy_vec<T: Copy>(v: &Vec<T>) -> (r: Vec<T>)
    ensures
        r@ == v@,
{
    let mut r: Vec<T> = Vec::new();
    let n = v.len();
    for i in 0..n
        invariant
            n == v@.len(),
            r@ == v@.take(i as int),
    {
        r.push(v[i]);
        proof {
            assert(r@ =~= v@.take(i + 1));
        }
    }
    proof {
        assert(v@.take(n as int) =~= v@);
    }
    r
}

/// Compare two shapes for equality.
pub fn shapes_equal(a: &Vec<usize>, b: &Vec<usize>) -> (r: bool)
    ensures
        r == (a@ == b@),
{
    let n = a.len();
    if n != b.len() {
        proof {
            assert(a@ != b@);
        }
        return false;
    }
    for i in 0..n
        invariant
            n == a@.len(),
            n == b@.len(),
            forall|k: int| 0 <= k < i ==> a@[k] == b@[k],
    {
        if a[i] != b[i] {
            proof {
                assert(a@ != b@);
            }
            return false;
        }
    }
    proof {
        assert(a@ =~= b@);
    }
    true
}

/// A shaped buffer of fixed-width elements, stored flat in row-major order.
///
/// Floating-point tensors are carried as their raw bit patterns (`u32` for
/// the 32-bit kind, `u64` for the 64-bit kind): this layer moves and checks
/// the data but never does arithmetic on it.
#[derive(Clone, Debug, PartialEq, Eq)]
pub struct Tensor<T> {
    pub data: Vec<T>,
    pub shape: Vec<usize>,
}

impl<T> Tensor<T> {
    /// The structural invariant: the flat buffer holds exactly one element
    /// per point of the shape.
    pub open spec fn wf(self) -> bool {
        spec_element_count(self.shape@) == self.data@.len()
    }

    /// Pair a flat buffer with a shape, checking that their sizes agree.
    pub fn from_parts(data: Vec<T>, shape: Vec<usize>) -> (r: Option<Tensor<T>>)
        ensures
            match r {
                Option::Some(t) => t.wf() && t.data == data && t.shape == shape,
                Option::None => spec_element_count(shape@) != data@.len(),
            },
    {
        let n = data.len();
        match element_count(&shape) {
            Some(c) => {
                if c == n {
                    Some(Tensor { data, shape })
                } else {
                    None
                }
            },
            None => None,
        }
    }

    /// The number of elements held.
    pub fn len(&self) -> (r: usize)
        ensures
            r == self.data@.len(),
    {
        self.data.len()
    }
}

impl<T: Copy> Tensor<T> {
    /// Copy the tensor; the copy's buffer and shape equal the original's.
    pub fn copy(&self) -> (r: Tensor<T>)
        ensures
            r.data@ == self.data@,
            r.shape@ == self.shape@,
    {
        Tensor { data: copy_vec(&self.data), shape: copy_vec(&self.shape) }
    }
}

/// A string tensor: every element's UTF-8 bytes concatenated into one buffer
/// without separators, the byte offset at which each element starts, and the
/// tensor's shape.
///
/// An element's bytes end where the next element's begin (at the buffer's
/// end, for the last element); an empty string contributes a zero-width
/// span.
#[derive(Clone, Debug, PartialEq, Eq)]
pub struct TensorString {
    pub buf: Vec<u8>,
    pub offsets: Vec<usize>,
    pub shape: Vec<usize>,
}

impl TensorString {
    /// The structural invariant: offsets are monotone and within the buffer,
    /// the first element (if any) starts at the buffer's beginning, an empty
    /// tensor has an empty buffer, and there is one offset per point of the
    /// shape.
    pub open spec fn wf(self) -> bool {
        &&& forall|i: int|
            0 <= i && i + 1 < self.offsets@.len() ==> #[trigger] self.offsets@[i]
                <= self.offsets@[i + 1]
        &&& forall|i: int| 0 <= i < self.offsets@.len() ==> self.offsets@[i] <= self.buf@.len()
        &&& self.offsets@.len() > 0 ==> self.offsets@[0] == 0
        &&& self.offsets@.len() == 0 ==> self.buf@.len() == 0
        &&& spec_element_count(self.shape@) == self.offsets@.len()
    }

    /// Where element `i`'s bytes start.
    pub open spec fn spec_start(self, i: int) -> int {
        self.offsets@[i] as int
    }

    /// Where element `i`'s bytes end: at the next element's start, or at the
    /// buffer's end for the last element.
    pub open spec fn spec_end(self, i: int) -> int {
        if i + 1 < self.offsets@.len() {
            self.offsets@[i + 1] as int
        } else {
            self.buf@.len() as int
        }
    }

    /// The UTF-8 bytes of element `i`.
    pub open spec fn spec_element_bytes(self, i: int) -> Seq<u8> {
        self.buf@.subrange(self.spec_start(i), self.spec_end(i))
    }

    /// The number of string elements held.
    pub fn element_count(&self) -> (r: usize)
        ensures
            r == self.offsets@.len(),
    {
        self.offsets.len()
    }

    /// Decide the structural invariant at run time, for callers outside
    /// verified code that receive a tensor they cannot otherwise trust.
    pub fn check_wf(&self) -> (r: bool)
        ensures
            r == self.wf(),
    {
        proof {
            assert(*self == (TensorString {
                buf: self.buf,
                offsets: self.offsets,
                shape: self.shape,
            }));
        }
        string_layout_wf(&self.buf, &self.offsets, &self.shape)
    }

    /// Copy the tensor; the copy's buffer, offsets and shape equal the
    /// original's.
    pub fn copy(&self) -> (r: TensorString)
        ensures
            r.buf@ == self.buf@,
            r.offsets@ == self.offsets@,
            r.shape@ == self.shape@,
    {
        TensorString {
            buf: copy_vec(&self.buf),
            offsets: copy_vec(&self.offsets),
            shape: copy_vec(&self.shape),
        }
    }

    /// Copy out the UTF-8 bytes of element `i`.
    pub fn element_bytes(&self, i: usize) -> (r: Vec<u8>)
        requires
            self.wf(),
            i < self.offsets@.len(),
        ensures
            r@ == self.spec_element_bytes(i as int),
    {
        let n = self.offsets.len();
        let start = self.offsets[i];
        let end = if i + 1 < n {
            self.offsets[i + 1]
        } else {
            self.buf.len()
        };
        slice_to_vec(&self.buf.as_slice()[start..end])
    }
}

/// Relies on `std::str::from_utf8`: it succeeds exactly on valid UTF-8
/// input, and the returned string slice is backed by those same bytes, so
/// its characters are the ones the bytes encode.
#[verifier::external_body]
fn bytes_to_str(bytes: &[u8]) -> (r: Option<&str>)
    ensures
        r is Some <==> valid_utf8(bytes@),
        r is Some ==> r.unwrap()@ == decode_utf8(bytes@),
{
    std::str::from_utf8(bytes).ok()
}

impl TensorString {
    /// The strings this tensor decodes to when every element holds valid
    /// UTF-8; `None` as soon as one element does not.
    pub open spec fn spec_strings(self) -> Option<Seq<Seq<char>>> {
        if forall|i: int| 0 <= i < self.offsets@.len() ==> valid_utf8(self.spec_element_bytes(i)) {
            Some(Seq::new(self.offsets@.len() as nat, |i: int| decode_utf8(self.spec_element_bytes(i))))
        } else {
            None
        }
    }

    /// Decode every element, failing on the first element that is not valid
    /// UTF-8 and reporting its index.
    pub fn strings(&self) -> (r: Result<Vec<String>, OpError>)
        requires
            self.wf(),
        ensures
            match r {
                Ok(v) => {
                    &&& self.spec_strings() == Some(v@.map_values(|s: String| s@))
                    &&& v@.len() == self.offsets@.len()
                },
                Err(e) => {
                    &&& self.spec_strings() is None
                    &&& e matches OpError::InvalidUtf8 { index } && 0 <= index
                        < self.offsets@.len() && !valid_utf8(self.spec_element_bytes(index as int))
                },
            },
    {
        let n = self.offsets.len();
        let mut out: Vec<String> = Vec::new();
        for i in 0..n
            invariant
                n == self.offsets@.len(),
                self.wf(),
                out@.len() == i,
                forall|k: int| 0 <= k < i ==> valid_utf8(self.spec_element_bytes(k)),
                forall|k: int|
                    0 <= k < i ==> #[trigger] out@[k]@ == decode_utf8(self.spec_element_bytes(k)),
        {
            let bytes = self.element_bytes(i);
            match bytes_to_str(bytes.as_slice()) {
                Some(s) => {
                    out.push(s.to_owned());
                },
                None => {
                    proof {
                        assert((i as int) < self.offsets@.len() && !valid_utf8(
                            self.spec_element_bytes(i as int),
                        ));
                        assert(!(forall|k: int|
                            0 <= k < self.offsets@.len() ==> valid_utf8(
                                self.spec_element_bytes(k),
                            )));
                    }
                    return Err(OpError::InvalidUtf8 { index: i });
                },
            }
        }
        proof {
            assert(self.spec_strings() == Some(out@.map_values(|s: String| s@))) by {
                assert(out@.map_values(|s: String| s@) =~= Seq::new(
                    self.offsets@.len() as nat,
                    |i: int| decode_utf8(self.spec_element_bytes(i)),
                ));
            }
        }
        Ok(out)
    }

    /// Decode every element, silently dropping elements that are not valid
    /// UTF-8, so that the result may hold fewer strings than the tensor has
    /// elements. Prefer `strings`, which fails loudly instead; this mirrors
    /// a host convention of treating undecodable elements as absent.
    pub fn vec_of_strs(&self) -> (r: Vec<String>)
        requires
            self.wf(),
        ensures
            r@.map_values(|s: String| s@) == self.spec_decoded_prefix(self.offsets@.len() as int),
    {
        let n = self.offsets.len();
        let mut out: Vec<String> = Vec::new();
        for i in 0..n
            invariant
                n == self.offsets@.len(),
                self.wf(),
                out@.map_values(|s: String| s@) == self.spec_decoded_prefix(i as int),
        {
            let bytes = self.element_bytes(i);
            match bytes_to_str(bytes.as_slice()) {
                Some(s) => {
                    let ghost prev = out@;
                    out.push(s.to_owned());
                    proof {
                        assert(out@.map_values(|s: String| s@) =~= prev.map_values(
                            |s: String| s@,
                        ) + seq![decode_utf8(self.spec_element_bytes(i as int))]);
                    }
                },
                None => {},
            }
        }
        out
    }

    /// The strings decoded from the first `n` elements, skipping elements
    /// whose bytes are not valid UTF-8.
    pub open spec fn spec_decoded_prefix(self, n: int) -> Seq<Seq<char>>
        decreases n,
    {
        if n <= 0 {
            Seq::empty()
        } else if valid_utf8(self.spec_element_bytes(n - 1)) {
            self.spec_decoded_prefix(n - 1) + seq![decode_utf8(self.spec_element_bytes(n - 1))]
        } else {
            self.spec_decoded_prefix(n - 1)
        }
    }

    /// Concatenate the given strings into a string tensor of the given
    /// shape. Fails exactly when the shape's element count differs from the
    /// number of strings, or the concatenated bytes would not fit in one
    /// buffer.
    #[verifier::rlimit(60)]
    pub fn from_strings(strs: &Vec<String>, shape: Vec<usize>) -> (r: Option<TensorString>)
        ensures
            match r {
                Option::Some(t) => {
                    &&& t.wf()
                    &&& t.shape == shape
                    &&& t.offsets@.len() == strs@.len()
                    &&& forall|i: int|
                        0 <= i < strs@.len() ==> t.spec_element_bytes(i) == encode_utf8(strs@[i]@)
                },
                Option::None => spec_element_count(shape@) != strs@.len() || spec_total_bytes(
                    strs@.map_values(|s: String| s@),
                ) > usize::MAX,
            },
    {
        match element_count(&shape) {
            Some(c) => {
                if c != strs.len() {
                    return None;
                }
            },
            None => {
                return None;
            },
        }
        let ghost char_seqs = strs@.map_values(|s: String| s@);
        let mut buf: Vec<u8> = Vec::new();
        let mut offsets: Vec<usize> = Vec::new();
        for i in 0..strs.len()
            invariant
                char_seqs == strs@.map_values(|s: String| s@),
                offsets@.len() == i,
                buf@.len() == spec_total_bytes(char_seqs.take(i as int)),
                buf@ == spec_concat_bytes(char_seqs.take(i as int)),
                forall|k: int|
                    0 <= k && k + 1 < i ==> #[trigger] offsets@[k] <= offsets@[k + 1],
                forall|k: int| 0 <= k < i ==> offsets@[k] <= buf@.len(),
                forall|k: int|
                    0 <= k < i ==> buf@.subrange(
                        offsets@[k] as int,
                        if k + 1 < i {
                            offsets@[k + 1] as int
                        } else {
                            buf@.len() as int
                        },
                    ) == encode_utf8(char_seqs[k]),
                i > 0 ==> offsets@[0] == 0,
                i == 0 ==> buf@.len() == 0,
        {
            proof {
                assert(char_seqs.take(i + 1).drop_last() =~= char_seqs.take(i as int));
                assert(char_seqs.take(i + 1).last() == char_seqs[i as int]);
            }
            let ghost prev_buf = buf@;
            let bytes = strs[i].as_str().as_bytes();
            if bytes.len() > usize::MAX - buf.len() {
                proof {
                    lemma_total_bytes_monotone(char_seqs, i + 1);
                }
                return None;
            }
            let ghost prev_offsets = offsets@;
            offsets.push(buf.len());
            buf.extend_from_slice(bytes);
            proof {
                assert(char_seqs[i as int] == strs@[i as int]@);
                assert(bytes@ == encode_utf8(char_seqs[i as int]));
                assert(buf@ == prev_buf + encode_utf8(char_seqs[i as int]));
                assert(offsets@ == prev_offsets.push((prev_buf.len() as usize)));
                assert(prev_offsets.len() == i);
                assert(forall|k: int| 0 <= k < i ==> prev_offsets[k] <= prev_buf.len());
                assert(offsets@[i as int] == prev_buf.len());
                assert forall|k: int| 0 <= k && k + 1 < i + 1 implies #[trigger] offsets@[k]
                    <= offsets@[k + 1] by {
                    if k + 1 < i {
                        assert(offsets@[k] == prev_offsets[k]);
                        assert(offsets@[k + 1] == prev_offsets[k + 1]);
                    } else {
                        assert(k < i);
                        assert(offsets@[k] == prev_offsets[k]);
                        assert(prev_offsets[k] <= prev_buf.len());
                    }
                }
                assert forall|k: int| 0 <= k < i + 1 implies buf@.subrange(
                    offsets@[k] as int,
                    if k + 1 < i + 1 {
                        offsets@[k + 1] as int
                    } else {
                        buf@.len() as int
                    },
                ) == encode_utf8(char_seqs[k]) by {
                    if k + 1 < i + 1 {
                        assert(buf@.subrange(offsets@[k] as int, offsets@[k + 1] as int)
                            =~= prev_buf.subrange(
                            offsets@[k] as int,
                            if k + 1 < i {
                                offsets@[k + 1] as int
                            } else {
                                prev_buf.len() as int
                            },
                        ));
                    } else {
                        assert(buf@.subrange(offsets@[k] as int, buf@.len() as int) =~= encode_utf8(
                            char_seqs[k],
                        ));
                    }
                }
            }
        }
        proof {
            assert(char_seqs.take(strs@.len() as int) =~= char_seqs);
        }
        let t = TensorString { buf, offsets, shape };
        proof {
            let n = strs@.len() as int;
            assert(t.offsets@.len() == n);
            assert forall|k: int| 0 <= k < n implies t.spec_element_bytes(k) == encode_utf8(
                strs@[k]@,
            ) by {
                assert(t.buf@.subrange(
                    t.offsets@[k] as int,
                    if k + 1 < n {
                        t.offsets@[k + 1] as int
                    } else {
                        t.buf@.len() as int
                    },
                ) == encode_utf8(char_seqs[k]));
                assert(t.spec_start(k) == t.offsets@[k] as int);
                if k + 1 < n {
                    assert(t.spec_end(k) == t.offsets@[k + 1] as int);
                } else {
                    assert(t.spec_end(k) == t.buf@.len() as int);
                }
            }
            assert(t.wf());
        }
        Some(t)
    }
}

/// Does a shape's element count equal `n`?
pub fn element_count_matches(shape: &Vec<usize>, n: usize) -> (r: bool)
    ensures
        r == (spec_element_count(shape@) == n),
{
    match element_count(shape) {
        Some(c) => c == n,
        None => false,
    }
}

/// Decide at run time whether a buffer, offsets, and shape form a
/// well-formed string tensor layout.
pub fn string_layout_wf(buf: &Vec<u8>, offsets: &Vec<usize>, shape: &Vec<usize>) -> (r: bool)
    ensures
        r == (TensorString { buf: *buf, offsets: *offsets, shape: *shape }).wf(),
{
    let n = offsets.len();
    if !element_count_matches(shape, n) {
        return false;
    }
    if n == 0 {
        return buf.len() == 0;
    }
    if offsets[0] != 0 {
        return false;
    }
    for i in 0..n
        invariant
            n == offsets@.len(),
            forall|k: int|
                0 <= k < i && k + 1 < n ==> #[trigger] offsets@[k] <= offsets@[k + 1],
            forall|k: int| 0 <= k < i ==> offsets@[k] <= buf@.len(),
    {
        if offsets[i] > buf.len() {
            return false;
        }
        if i + 1 < n && offsets[i] > offsets[i + 1] {
            return false;
        }
    }
    true
}

/// The total number of bytes the given strings occupy when encoded as
/// UTF-8.
pub open spec fn spec_total_bytes(strs: Seq<Seq<char>>) -> nat
    decreases strs.len(),
{
    if strs.len() == 0 {
        0
    } else {
        spec_total_bytes(strs.drop_last()) + encode_utf8(strs.last()).len()
    }
}

/// The concatenation of the given strings' UTF-8 bytes.
pub open spec fn spec_concat_bytes(strs: Seq<Seq<char>>) -> Seq<u8>
    decreases strs.len(),
{
    if strs.len() == 0 {
        Seq::empty()
    } else {
        spec_concat_bytes(strs.drop_last()) + encode_utf8(strs.last())
    }
}

/// The byte total over a prefix never exceeds the total over the whole
/// list.
proof fn lemma_total_bytes_monotone(strs: Seq<Seq<char>>, j: int)
    requires
        0 <= j <= strs.len(),
    ensures
        spec_total_bytes(strs) >= spec_total_bytes(strs.take(j)),
    decreases strs.len(),
{
    if j == strs.len() {
        assert(strs.take(j) =~= strs);
    } else if strs.len() > 0 {
        assert(strs.take(j) =~= strs.drop_last().take(j));
        lemma_total_bytes_monotone(strs.drop_last(), j);
    }
}

/// Encoding strings into a tensor and decoding that tensor yields the
/// original strings: `from_strings` followed by `strings` is the identity.
pub proof fn lemma_string_round_trip(strs: Seq<Seq<char>>, t: TensorString)
    requires
        t.wf(),
        t.offsets@.len() == strs.len(),
        forall|i: int| 0 <= i < strs.len() ==> t.spec_element_bytes(i) == encode_utf8(strs[i]),
    ensures
        t.spec_strings() == Some(strs),
{
    assert forall|i: int| 0 <= i < t.offsets@.len() implies valid_utf8(
        t.spec_element_bytes(i),
    ) by {
        encode_utf8_valid_utf8(strs[i]);
    }
    assert(t.spec_strings() == Some(
        Seq::new(t.offsets@.len() as nat, |i: int| decode_utf8(t.spec_element_bytes(i))),
    ));
    assert forall|i: int| 0 <= i < strs.len() implies decode_utf8(t.spec_element_bytes(i))
        == strs[i] by {
        encode_utf8_decode_utf8(strs[i]);
    }
    assert(Seq::new(t.offsets@.len() as nat, |i: int| decode_utf8(t.spec_element_bytes(i)))
        =~= strs);
}

} // verus!

