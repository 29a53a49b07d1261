//! The compile-time shape of an operator's input list — a fixed positional
//! prefix and an optional homogeneous variadic tail — and the arity- and
//! type-checked decoding of the values supplied at a call into that shape.

use vstd::prelude::*;

use crate::element_type::ElementType;
use crate::error::OpError;
use crate::value::Value;

verus! {

/// The host's classification of an input or output slot.
#[derive(Clone, Copy, Debug, PartialEq, Eq, Structural)]
pub enum Characteristic {
    Required,
    Optional,
    Variadic,
}

/// Host code for a required slot.
pub const CHARACTERISTIC_REQUIRED: u32 = 0;
/// Host code for an optional slot.
pub const CHARACTERISTIC_OPTIONAL: u32 = 1;
/// Host code for a variadic slot.
pub const CHARACTERISTIC_VARIADIC: u32 = 2;

impl Characteristic {
    /// The code the host's characteristic queries return.
    pub open spec fn spec_encoding(self) -> u32 {
        match self {
            Characteristic::Required => CHARACTERISTIC_REQUIRED,
            Characteristic::Optional => CHARACTERISTIC_OPTIONAL,
            Characteristic::Variadic => CHARACTERISTIC_VARIADIC,
        }
    }

    /// Convert to the host's wire-level characteristic code.
    pub fn to_ort_encoding(&self) -> (r: u32)
        ensures
            r == self.spec_encoding(),
    {
        match self {
            Characteristic::Required => CHARACTERISTIC_REQUIRED,
            Characteristic::Optional => CHARACTERISTIC_OPTIONAL,
            Characteristic::Variadic => CHARACTERISTIC_VARIADIC,
        }
    }
}

/// The trailing variadic slot of a signature: every extra value shares one
/// element kind (the tail is homogeneous), and at least `min_arity` extra
/// values must be supplied.
#[derive(Clone, Copy, Debug, PartialEq, Eq, Structural)]
pub struct VariadicSlot {
    pub element_type: ElementType,
    pub min_arity: usize,
}

/// The declared shape of an operator's inputs: one element kind per
/// required positional slot, then optionally one variadic tail.
#[derive(Clone, Debug, PartialEq, Eq)]
pub struct InputSignature {
    pub positional: Vec<ElementType>,
    pub variadic: Option<VariadicSlot>,
}

/// The values supplied at one call, decoded into the declared shape: the
/// positional prefix and the variadic tail (empty for a fixed signature).
#[derive(Debug)]
pub struct Inputs {
    pub positional: Vec<Value>,
    pub variadic: Vec<Value>,
}

/// The mathematical shape of an input declaration: the element kinds of
/// the positional slots and the optional variadic tail. `InputSignature`
/// is its executable carrier; contracts that have no signature object in
/// hand — the compute shim's, most of all — speak of this shape directly.
pub struct InputShape {
    pub positional: Seq<ElementType>,
    pub variadic: Option<VariadicSlot>,
}

impl InputShape {
    /// A machine-level sanity condition: the least acceptable value count
    /// fits in the machine's word size.
    pub open spec fn wf(self) -> bool {
        self.spec_min_count() <= usize::MAX
    }

    /// The least number of values a call must supply.
    pub open spec fn spec_min_count(self) -> int {
        self.positional.len() + match self.variadic {
            Option::Some(v) => v.min_arity as int,
            Option::None => 0,
        }
    }

    /// Does a call supplying `n` values satisfy the declared arity? A
    /// fixed declaration demands exactly its positional count; a variadic
    /// one demands at least the positional count plus the tail's minimum
    /// arity.
    pub open spec fn spec_arity_ok(self, n: int) -> bool {
        match self.variadic {
            Option::Some(_) => n >= self.spec_min_count(),
            Option::None => n == self.positional.len(),
        }
    }

    /// The element kind expected at value position `i`, or `None` where
    /// the declaration has no slot for that position.
    pub open spec fn spec_slot_type(self, i: int) -> Option<ElementType> {
        if 0 <= i < self.positional.len() {
            Some(self.positional[i])
        } else if i >= self.positional.len() {
            match self.variadic {
                Option::Some(v) => Some(v.element_type),
                Option::None => None,
            }
        } else {
            None
        }
    }

    /// Does every supplied value carry the element kind its position
    /// expects?
    pub open spec fn spec_types_ok(self, values: Seq<Value>) -> bool {
        forall|i: int|
            #![trigger values[i]]
            0 <= i < values.len() ==> self.spec_slot_type(i) == Some(values[i].spec_element_type())
    }

    /// The first position whose value has the wrong element kind, starting
    /// the search at `i`; the length of the list when every position from
    /// `i` on matches.
    pub open spec fn spec_first_mismatch_from(self, values: Seq<Value>, i: int) -> int
        decreases values.len() - i,
    {
        if i < 0 || i >= values.len() {
            values.len() as int
        } else if self.spec_slot_type(i) != Some(values[i].spec_element_type()) {
            i
        } else {
            self.spec_first_mismatch_from(values, i + 1)
        }
    }

    /// The arity error reported when `n` values do not satisfy the
    /// declaration.
    pub open spec fn spec_arity_error(self, n: int) -> OpError {
        OpError::ArityError {
            minimum: self.spec_min_count() as usize,
            exact: self.variadic is None,
            found: n as usize,
        }
    }

    /// What decoding a list of supplied values yields: the split into
    /// prefix and tail, or the error the list is rejected with. Arity is
    /// checked before element kinds; kinds are checked left to right.
    pub open spec fn spec_try_from_values(self, values: Seq<Value>) -> Result<
        (Seq<Value>, Seq<Value>),
        OpError,
    > {
        let p = self.positional.len() as int;
        if !self.spec_arity_ok(values.len() as int) {
            Err(self.spec_arity_error(values.len() as int))
        } else if !self.spec_types_ok(values) {
            let m = self.spec_first_mismatch_from(values, 0);
            Err(OpError::TypeMismatch {
                expected: self.spec_slot_type(m).unwrap(),
                found: values[m].spec_element_type(),
            })
        } else {
            Ok((values.take(p), values.skip(p)))
        }
    }
}

impl InputSignature {
    /// The declaration's mathematical shape.
    pub open spec fn shape(self) -> InputShape {
        InputShape { positional: self.positional@, variadic: self.variadic }
    }

    /// A machine-level sanity condition: the least acceptable value count
    /// fits in the machine's word size.
    pub open spec fn wf(self) -> bool {
        self.shape().wf()
    }

    /// The least number of values a call must supply.
    pub open spec fn spec_min_count(self) -> int {
        self.shape().spec_min_count()
    }

    /// Does a call supplying `n` values satisfy the signature's arity?
    pub open spec fn spec_arity_ok(self, n: int) -> bool {
        self.shape().spec_arity_ok(n)
    }

    /// The element kind expected at value position `i`, or `None` where the
    /// signature has no slot for that position.
    pub open spec fn spec_slot_type(self, i: int) -> Option<ElementType> {
        self.shape().spec_slot_type(i)
    }

    /// Does every supplied value carry the element kind its position
    /// expects?
    pub open spec fn spec_types_ok(self, values: Seq<Value>) -> bool {
        self.shape().spec_types_ok(values)
    }

    /// The first position whose value has the wrong element kind.
    pub open spec fn spec_first_mismatch_from(self, values: Seq<Value>, i: int) -> int {
        self.shape().spec_first_mismatch_from(values, i)
    }

    /// The arity error reported when `n` values do not satisfy the
    /// signature.
    pub open spec fn spec_arity_error(self, n: int) -> OpError {
        self.shape().spec_arity_error(n)
    }

    /// What decoding a list of supplied values yields.
    pub open spec fn spec_try_from_values(self, values: Seq<Value>) -> Result<
        (Seq<Value>, Seq<Value>),
        OpError,
    > {
        self.shape().spec_try_from_values(values)
    }

    /// How many logical slots the signature declares: each positional slot
    /// is one, and a variadic tail is one more.
    pub fn slot_count(&self) -> (r: usize)
        requires
            self.positional@.len() < usize::MAX,
        ensures
            r == self.positional@.len() + if self.variadic is Some {
                1int
            } else {
                0int
            },
    {
        match &self.variadic {
            Some(_) => self.positional.len() + 1,
            None => self.positional.len(),
        }
    }

    /// The host's characteristic of slot `index`: positional slots are
    /// required, the tail is variadic.
    pub fn characteristic(&self, index: usize) -> (r: Characteristic)
        requires
            self.positional@.len() < usize::MAX,
            index < self.positional@.len() + if self.variadic is Some {
                1int
            } else {
                0int
            },
        ensures
            r == if index < self.positional@.len() {
                Characteristic::Required
            } else {
                Characteristic::Variadic
            },
    {
        if index < self.positional.len() {
            Characteristic::Required
        } else {
            Characteristic::Variadic
        }
    }

    /// The element kind of slot `index`, as the host's type queries expect
    /// it: the tail counts as one slot of its element kind.
    pub fn tensor_data_type(&self, index: usize) -> (r: ElementType)
        requires
            self.positional@.len() < usize::MAX,
            index < self.positional@.len() + if self.variadic is Some {
                1int
            } else {
                0int
            },
        ensures
            Some(r) == self.spec_slot_type(index as int),
    {
        if index < self.positional.len() {
            self.positional[index]
        } else {
            match &self.variadic {
                Some(v) => v.element_type,
                None => unreached(),
            }
        }
    }

    /// Split the values supplied at a call into the declared positional
    /// prefix and variadic tail, rejecting a call that supplies the wrong
    /// number of values or a value of the wrong element kind.
    pub fn try_from_values(&self, values: Vec<Value>) -> (r: Result<Inputs, OpError>)
        requires
            self.wf(),
        ensures
            match r {
                Ok(inp) => self.spec_try_from_values(values@) == Ok::<_, OpError>(
                    (inp.positional@, inp.variadic@),
                ),
                Err(e) => self.spec_try_from_values(values@) == Err::<(Seq<Value>, Seq<Value>), _>(
                    e,
                ),
            },
    {
        let n = values.len();
        let p = self.positional.len();
        let arity_ok = match &self.variadic {
            Some(v) => n >= p && n - p >= v.min_arity,
            None => n == p,
        };
        if !arity_ok {
            let minimum = match &self.variadic {
                Some(v) => p + v.min_arity,
                None => p,
            };
            return Err(OpError::ArityError { minimum, exact: self.variadic.is_none(), found: n });
        }
        let mut i: usize = 0;
        while i < n
            invariant
                n == values@.len(),
                p == self.positional@.len(),
                i <= n,
                forall|k: int|
                    #![trigger values@[k]]
                    0 <= k < i ==> self.spec_slot_type(k) == Some(values@[k].spec_element_type()),
                self.spec_arity_ok(n as int),
            decreases n - i,
        {
            let expected = if i < p {
                self.positional[i]
            } else {
                match &self.variadic {
                    Some(v) => v.element_type,
                    None => unreached(),
                }
            };
            let found = values[i].element_type();
            if !element_types_equal(expected, found) {
                proof {
                    lemma_first_mismatch(*self, values@, i as int);
                }
                return Err(OpError::TypeMismatch { expected, found });
            }
            i = i + 1;
        }
        let mut positional: Vec<Value> = Vec::new();
        let mut rest = values;
        let mut j: usize = 0;
        while j < p
            invariant
                p == self.positional@.len(),
                p <= n,
                j <= p,
                n == j + rest@.len(),
                positional@.len() == j,
                positional@ + rest@ == values@,
            decreases p - j,
        {
            let ghost prev_rest = rest@;
            let ghost prev_pos = positional@;
            let v = rest.remove(0);
            positional.push(v);
            proof {
                assert(rest@ =~= prev_rest.subrange(1, prev_rest.len() as int));
                assert(positional@ + rest@ =~= prev_pos + prev_rest);
            }
            j = j + 1;
        }
        proof {
            assert(positional@ =~= values@.take(p as int));
            assert(rest@ =~= values@.skip(p as int));
        }
        Ok(Inputs { positional, variadic: rest })
    }
}

/// Compare two element kinds.
fn element_types_equal(a: ElementType, b: ElementType) -> (r: bool)
    ensures
        r == (a == b),
{
    a == b
}

/// Where the left-to-right scan in `try_from_values` stops with a mismatch
/// at `i`, that `i` is exactly `spec_first_mismatch_from(values, 0)`.
proof fn lemma_first_mismatch(sig: InputSignature, values: Seq<Value>, i: int)
    requires
        0 <= i < values.len(),
        sig.spec_slot_type(i) != Some(values[i].spec_element_type()),
        forall|k: int|
            #![trigger values[k]]
            0 <= k < i ==> sig.spec_slot_type(k) == Some(values[k].spec_element_type()),
    ensures
        !sig.spec_types_ok(values),
        sig.spec_first_mismatch_from(values, 0) == i,
{
    assert(!sig.spec_types_ok(values)) by {
        assert(values[i] == values[i]);
    }
    lemma_first_mismatch_step(sig, values, 0, i);
}

/// The scan for the first mismatch, started anywhere at or before a
/// position `i` whose prefix is clean, stops at `i`.
proof fn lemma_first_mismatch_step(sig: InputSignature, values: Seq<Value>, from: int, i: int)
    requires
        0 <= from <= i < values.len(),
        sig.spec_slot_type(i) != Some(values[i].spec_element_type()),
        forall|k: int|
            #![trigger values[k]]
            0 <= k < i ==> sig.spec_slot_type(k) == Some(values[k].spec_element_type()),
    ensures
        sig.spec_first_mismatch_from(values, from) == i,
    decreases i - from,
{
    if from < i {
        lemma_first_mismatch_step(sig, values, from + 1, i);
    }
}

impl Inputs {
    /// Extract the payload of a single positional input at its static
    /// type; the caller knows the kind from the signature the inputs were
    /// decoded through.
    pub fn into_array<T: crate::value::TryFromValue>(self) -> (r: T)
        requires
            self.positional@.len() == 1,
            self.positional@[0].spec_element_type() == T::spec_expected_type(),
        ensures
            r == T::spec_unwrap(self.positional@[0]),
    {
        let mut positional = self.positional;
        let v = positional.remove(0);
        match T::try_from_value(v) {
            Ok(t) => t,
            Err(_) => unreached(),
        }
    }

    /// Extract the payloads of two positional inputs at their static
    /// types.
    pub fn into_2_arrays<T1: crate::value::TryFromValue, T2: crate::value::TryFromValue>(
        self,
    ) -> (r: (T1, T2))
        requires
            self.positional@.len() == 2,
            self.positional@[0].spec_element_type() == T1::spec_expected_type(),
            self.positional@[1].spec_element_type() == T2::spec_expected_type(),
        ensures
            r.0 == T1::spec_unwrap(self.positional@[0]),
            r.1 == T2::spec_unwrap(self.positional@[1]),
    {
        let mut positional = self.positional;
        let vb = positional.remove(1);
        let va = positional.remove(0);
        let a = match T1::try_from_value(va) {
            Ok(t) => t,
            Err(_) => unreached(),
        };
        let b = match T2::try_from_value(vb) {
            Ok(t) => t,
            Err(_) => unreached(),
        };
        (a, b)
    }

    /// How many positional values were supplied.
    pub fn positional_count(&self) -> (r: usize)
        ensures
            r == self.positional@.len(),
    {
        self.positional.len()
    }

    /// How many values the variadic tail received.
    pub fn variadic_count(&self) -> (r: usize)
        ensures
            r == self.variadic@.len(),
    {
        self.variadic.len()
    }
}

/// Supplying fewer values than a variadic signature's minimum is rejected
/// with an arity error; supplying at least the minimum, with every value of
/// the declared kind, is accepted, and the decoded tail holds exactly the
/// values past the positional prefix.
pub proof fn lemma_variadic_arity(sig: InputSignature, values: Seq<Value>)
    requires
        sig.variadic is Some,
    ensures
        values.len() < sig.spec_min_count() ==> sig.spec_try_from_values(values) == Err::<
            (Seq<Value>, Seq<Value>),
            _,
        >(sig.spec_arity_error(values.len() as int)),
        values.len() >= sig.spec_min_count() && sig.spec_types_ok(values) ==> {
            &&& sig.spec_try_from_values(values) matches Ok(r)
            &&& r.1.len() == values.len() - sig.positional@.len()
            &&& r.0 == values.take(sig.positional@.len() as int)
            &&& r.1 == values.skip(sig.positional@.len() as int)
        },
{
}

/// Decoding a value through a slot that statically expects another element
/// kind fails with a type mismatch naming both kinds — it is never coerced.
pub proof fn lemma_type_mismatch(sig: InputSignature, values: Seq<Value>, i: int)
    requires
        sig.spec_arity_ok(values.len() as int),
        0 <= i < values.len(),
        sig.spec_slot_type(i) != Some(values[i].spec_element_type()),
        forall|k: int|
            #![trigger values[k]]
            0 <= k < i ==> sig.spec_slot_type(k) == Some(values[k].spec_element_type()),
    ensures
        sig.spec_try_from_values(values) == Err::<(Seq<Value>, Seq<Value>), _>(
            OpError::TypeMismatch {
                expected: sig.spec_slot_type(i).unwrap(),
                found: values[i].spec_element_type(),
            },
        ),
{
    lemma_first_mismatch(sig, values, i);
}

} // verus!
