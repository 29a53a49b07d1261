//! The user-facing operator contract and the table of callbacks the host
//! drives an operator through: metadata queries answered from the declared
//! signature, and the create/compute shims that translate a kernel's typed
//! results and errors into the host's calling convention.

use vstd::prelude::*;
use vstd::string::StringExecFns;

use crate::attributes::KernelInfo;
use crate::element_type::ElementType;
use crate::error::ErrorStatus;
use crate::error::RUNTIME_EXCEPTION_CODE;
use crate::host::KernelContext;
use crate::inputs::Characteristic;
use crate::inputs::InputSignature;
use crate::inputs::Inputs;
use crate::inputs::VariadicSlot;
use crate::outputs::OutputSignature;
use crate::outputs::Outputs;
use crate::tensor::copy_vec;
use crate::value::Value;

verus! {

/// An error a user kernel reports: all this layer asks of it is a line of
/// text to put in the host's status object.
pub trait ErrorText {
    /// The text of the error.
    spec fn spec_message(&self) -> Seq<char>;

    /// Render the error as text.
    fn message(&self) -> (r: String)
        ensures
            r@ == self.spec_message(),
    ;
}

/// The mathematical shape of an operator's declaration: its name, version,
/// and the element kinds of its input and output slots.
pub struct SigModel {
    pub name: Seq<char>,
    pub version: u32,
    pub input_positional: Seq<ElementType>,
    pub input_variadic: Option<VariadicSlot>,
    pub output_positional: Seq<ElementType>,
    pub output_variadic: Option<VariadicSlot>,
}

impl SigModel {
    /// Machine-level sanity of a declaration: slot counts and the least
    /// input arity fit in the machine's word size.
    pub open spec fn wf(self) -> bool {
        &&& self.input_positional.len() + match self.input_variadic {
            Option::Some(v) => v.min_arity as int,
            Option::None => 0int,
        } < usize::MAX
        &&& self.output_positional.len() < usize::MAX
    }

    /// The input half of the declaration, as the decode functions check
    /// it.
    pub open spec fn input_shape(self) -> crate::inputs::InputShape {
        crate::inputs::InputShape {
            positional: self.input_positional,
            variadic: self.input_variadic,
        }
    }
}

/// The error the marshalling layer itself raises for a call's input
/// tensors, before the kernel is ever reached: the unsupported code of the
/// first tensor outside the closed set, else whatever rejection splitting
/// the decoded values through the declaration yields (wrong arity, or the
/// first value of a wrong element kind); `None` when the inputs pass every
/// check of the layer's own.
pub open spec fn spec_input_error(sig: SigModel, tensors: Seq<crate::host::HostTensor>) -> Option<
    crate::error::OpError,
> {
    let u = crate::host::spec_first_unsupported(tensors, 0);
    if u < tensors.len() {
        Some(crate::error::OpError::UnsupportedElementType { code: tensors[u].code })
    } else {
        match sig.input_shape().spec_try_from_values(
            tensors.map_values(|t: crate::host::HostTensor| t.spec_value()),
        ) {
            Ok(_) => None,
            Err(e) => Some(e),
        }
    }
}

/// An operator's declaration as a kernel author states it.
#[derive(Debug)]
pub struct OpSignature {
    pub name: String,
    pub version: u32,
    pub inputs: InputSignature,
    pub outputs: OutputSignature,
}

impl OpSignature {
    /// The declaration's mathematical shape.
    pub open spec fn model(self) -> SigModel {
        SigModel {
            name: self.name@,
            version: self.version,
            input_positional: self.inputs.positional@,
            input_variadic: self.inputs.variadic,
            output_positional: self.outputs.positional@,
            output_variadic: self.outputs.variadic,
        }
    }
}

/// Do decoded inputs fit an operator's declaration? The positional values
/// carry exactly the declared element kinds, the variadic tail is at least
/// its minimum arity long and homogeneous in the declared kind (and empty
/// where no tail is declared), and every value is well-formed. The compute
/// shim establishes this before it ever calls a kernel, so a kernel can
/// extract its typed payloads without a failure path.
pub open spec fn inputs_match_signature(sig: SigModel, inputs: Inputs) -> bool {
    &&& inputs.positional@.len() == sig.input_positional.len()
    &&& forall|i: int|
        #![trigger inputs.positional@[i]]
        0 <= i < inputs.positional@.len() ==> inputs.positional@[i].spec_element_type()
            == sig.input_positional[i] && inputs.positional@[i].wf()
    &&& match sig.input_variadic {
        Option::Some(v) => {
            &&& inputs.variadic@.len() >= v.min_arity
            &&& forall|i: int|
                #![trigger inputs.variadic@[i]]
                0 <= i < inputs.variadic@.len() ==> inputs.variadic@[i].spec_element_type()
                    == v.element_type && inputs.variadic@[i].wf()
        },
        Option::None => inputs.variadic@.len() == 0,
    }
}

/// The contract a custom operator implements: an error type for each of the
/// two lifecycle calls, a declared signature, and the two lifecycle
/// functions. `kernel_create` runs once per operator instantiation, reads
/// and validates attributes, and must fail by returning its error — a
/// kernel that failed construction is never computed or destroyed.
/// `kernel_compute` runs once per inference call, and only ever over inputs
/// that were decoded through the operator's own signature.
pub trait CustomOp: Sized {
    type KernelCreateError: ErrorText;

    type ComputeError: ErrorText;

    /// The declared signature's mathematical shape.
    spec fn spec_signature() -> SigModel;

    /// Every declaration must be machine-representable.
    proof fn signature_wf()
        ensures
            Self::spec_signature().wf(),
    ;

    /// State the operator's declaration.
    fn signature() -> (s: OpSignature)
        ensures
            s.model() == Self::spec_signature(),
    ;

    /// Construct the kernel for one graph node, reading whatever attributes
    /// it needs.
    fn kernel_create(info: &KernelInfo) -> (r: Result<Self, Self::KernelCreateError>)
        requires
            info.wf(),
    ;

    /// Run one inference call over the decoded inputs.
    fn kernel_compute(&self, inputs: Inputs) -> (r: Result<Outputs, Self::ComputeError>)
        requires
            inputs_match_signature(Self::spec_signature(), inputs),
    ;
}

impl ErrorText for crate::error::OpError {
    open spec fn spec_message(&self) -> Seq<char> {
        crate::error::OpError::spec_message(*self)
    }

    fn message(&self) -> (r: String) {
        crate::error::OpError::message(self)
    }
}

impl ErrorText for core::convert::Infallible {
    open spec fn spec_message(&self) -> Seq<char> {
        Seq::empty()
    }

    fn message(&self) -> (r: String) {
        String::new()
    }
}

/// The execution provider every operator of this layer runs on.
pub fn execution_provider() -> (r: &'static str)
    ensures
        r@ == "CPUExecutionProvider"@,
{
    "CPUExecutionProvider"
}

/// The host's memory kind for an input that lives in ordinary memory.
pub const MEM_TYPE_DEFAULT: i32 = 0;

/// The callback table the host drives one operator through, with the
/// metadata queries it issues before ever calling compute answered from the
/// operator's declared signature.
///
/// A minimum variadic arity can only be declared on a signature that has a
/// variadic tail, so the ill-formed declaration the builder would otherwise
/// have to reject at build time cannot be expressed.
#[derive(Debug)]
pub struct OpTable {
    pub version: u32,
    pub signature: OpSignature,
}

/// Build the host's callback table for an operator type.
pub fn build<T: CustomOp>() -> (r: OpTable)
    ensures
        r.version == crate::API_VERSION,
        r.signature.model() == T::spec_signature(),
{
    OpTable { version: crate::API_VERSION, signature: T::signature() }
}

impl OpTable {
    /// The declaration's mathematical shape.
    pub open spec fn model(self) -> SigModel {
        self.signature.model()
    }

    /// The operator's name.
    pub fn get_name(&self) -> (r: String)
        ensures
            r@ == self.model().name,
    {
        self.signature.name.as_str().to_owned()
    }

    /// The execution provider the operator runs on.
    pub fn get_execution_provider_type(&self) -> (r: &'static str)
        ensures
            r@ == "CPUExecutionProvider"@,
    {
        execution_provider()
    }

    /// How many logical input slots the operator declares; a variadic tail
    /// counts as one.
    pub fn get_input_type_count(&self) -> (r: usize)
        requires
            self.model().wf(),
        ensures
            r == self.model().input_positional.len() + if self.model().input_variadic is Some {
                1int
            } else {
                0int
            },
    {
        proof {
            assert(self.signature.inputs.positional@.len() < usize::MAX);
        }
        self.signature.inputs.slot_count()
    }

    /// The element-type code of input slot `index`.
    pub fn get_input_type(&self, index: usize) -> (r: u32)
        requires
            self.model().wf(),
            index < self.model().input_positional.len() + if self.model().input_variadic is Some {
                1int
            } else {
                0int
            },
        ensures
            Some(r) == match self.signature.inputs.spec_slot_type(index as int) {
                Option::Some(t) => Some(t.spec_encoding()),
                Option::None => None::<u32>,
            },
    {
        self.signature.inputs.tensor_data_type(index).to_ort_encoding()
    }

    /// The characteristic code of input slot `index`.
    pub fn get_input_characteristic(&self, index: usize) -> (r: u32)
        requires
            self.model().wf(),
            index < self.model().input_positional.len() + if self.model().input_variadic is Some {
                1int
            } else {
                0int
            },
        ensures
            r == if index < self.model().input_positional.len() {
                Characteristic::Required.spec_encoding()
            } else {
                Characteristic::Variadic.spec_encoding()
            },
    {
        self.signature.inputs.characteristic(index).to_ort_encoding()
    }

    /// How many logical output slots the operator declares; a variadic tail
    /// counts as one.
    pub fn get_output_type_count(&self) -> (r: usize)
        requires
            self.model().wf(),
        ensures
            r == self.model().output_positional.len() + if self.model().output_variadic is Some {
                1int
            } else {
                0int
            },
    {
        self.signature.outputs.slot_count()
    }

    /// The element-type code of output slot `index`.
    pub fn get_output_type(&self, index: usize) -> (r: u32)
        requires
            self.model().wf(),
            index < self.model().output_positional.len() + if self.model().output_variadic
                is Some {
                1int
            } else {
                0int
            },
        ensures
            Some(r) == match self.signature.outputs.spec_slot_type(index as int) {
                Option::Some(t) => Some(t.spec_encoding()),
                Option::None => None::<u32>,
            },
    {
        self.signature.outputs.tensor_data_type(index).to_ort_encoding()
    }

    /// The characteristic code of output slot `index`.
    pub fn get_output_characteristic(&self, index: usize) -> (r: u32)
        requires
            self.model().wf(),
            index < self.model().output_positional.len() + if self.model().output_variadic
                is Some {
                1int
            } else {
                0int
            },
        ensures
            r == if index < self.model().output_positional.len() {
                Characteristic::Required.spec_encoding()
            } else {
                Characteristic::Variadic.spec_encoding()
            },
    {
        self.signature.outputs.characteristic(index).to_ort_encoding()
    }

    /// The least number of values the variadic input tail accepts; zero for
    /// an operator without one.
    pub fn get_variadic_input_min_arity(&self) -> (r: usize)
        ensures
            r == match self.model().input_variadic {
                Option::Some(v) => v.min_arity,
                Option::None => 0usize,
            },
    {
        match &self.signature.inputs.variadic {
            Some(v) => v.min_arity,
            None => 0,
        }
    }

    /// Whether the variadic input tail is homogeneous. Every tail this
    /// layer can declare carries a single element kind.
    pub fn get_variadic_input_homogeneity(&self) -> (r: bool)
        requires
            self.model().input_variadic is Some,
        ensures
            r == true,
    {
        true
    }

    /// The least number of values the variadic output tail accepts; zero
    /// for an operator without one.
    pub fn get_variadic_output_min_arity(&self) -> (r: usize)
        ensures
            r == match self.model().output_variadic {
                Option::Some(v) => v.min_arity,
                Option::None => 0usize,
            },
    {
        match &self.signature.outputs.variadic {
            Some(v) => v.min_arity,
            None => 0,
        }
    }

    /// Whether the variadic output tail is homogeneous.
    pub fn get_variadic_output_homogeneity(&self) -> (r: bool)
        requires
            self.model().output_variadic is Some,
        ensures
            r == true,
    {
        true
    }

    /// The memory kind of input `index`: always the host's default memory.
    pub fn get_input_memory_type(&self, index: usize) -> (r: i32)
        ensures
            r == MEM_TYPE_DEFAULT,
    {
        let _ = index;
        MEM_TYPE_DEFAULT
    }
}

/// One constructed kernel instance, paired with what the compute shim needs
/// from the surrounding session. The host owns it exclusively, as an opaque
/// handle, from successful creation to the single matching destroy call.
#[derive(Debug)]
pub struct WrappedKernel<T> {
    pub user_kernel: T,
    pub api_version: u32,
}

/// Construct a kernel for one graph node, translating a construction
/// failure into a host status that names the operator: the host never
/// receives a kernel whose construction failed.
pub fn create_kernel_fallible<T: CustomOp>(info: &KernelInfo) -> (r: Result<
    WrappedKernel<T>,
    ErrorStatus,
>)
    requires
        info.wf(),
    ensures
        r matches Err(s) ==> {
            &&& s.code == RUNTIME_EXCEPTION_CODE
            &&& exists|m: Seq<char>| s.msg@ == ErrorStatus::spec_op_message(
                T::spec_signature().name,
                m,
            )
        },
        r matches Ok(w) ==> w.api_version == crate::API_VERSION,
{
    match T::kernel_create(info) {
        Ok(user_kernel) => Ok(WrappedKernel { user_kernel, api_version: crate::API_VERSION }),
        Err(e) => Err(status_for_op_error::<T>(&e.message())),
    }
}

/// Build the status an operator's failure is reported under: the host's
/// runtime-exception code, and the operator's name joined to the error's
/// own text.
pub fn status_for_op_error<T: CustomOp>(msg: &str) -> (r: ErrorStatus)
    ensures
        r.code == RUNTIME_EXCEPTION_CODE,
        r.msg@ == ErrorStatus::spec_op_message(T::spec_signature().name, msg@),
{
    let sig = T::signature();
    ErrorStatus::for_op(sig.name.as_str(), msg)
}

/// Run one compute call: decode the host's input tensors into the declared
/// input shape, run the kernel, and encode what it returned into the host's
/// output slots. Every failure — an unsupported input tensor, a wrong
/// arity or element kind, the kernel's own error, or more outputs than the
/// host declared — is reported as one status naming the operator and
/// leaves every output slot untouched; where the layer's own input checks
/// reject the call, the status carries exactly that error's text. On
/// success, the leading output slots hold, in order, the encodings of the
/// values the kernel returned, and the slots past them are untouched.
pub fn kernel_compute_fallible<T: CustomOp>(kernel: &WrappedKernel<T>, ctx: &mut KernelContext) -> (r:
    Result<(), ErrorStatus>)
    requires
        old(ctx).wf(),
    ensures
        final(ctx).inputs@.len() == 0,
        final(ctx).outputs@.len() == old(ctx).outputs@.len(),
        r matches Err(s) ==> {
            &&& s.code == RUNTIME_EXCEPTION_CODE
            &&& exists|m: Seq<char>| s.msg@ == ErrorStatus::spec_op_message(
                T::spec_signature().name,
                m,
            )
            &&& final(ctx).outputs@ == old(ctx).outputs@
        },
        match spec_input_error(T::spec_signature(), old(ctx).inputs@) {
            Option::Some(e) => r matches Err(s) && s.msg@ == ErrorStatus::spec_op_message(
                T::spec_signature().name,
                e.spec_message(),
            ),
            Option::None => true,
        },
        r is Ok ==> {
            &&& spec_input_error(T::spec_signature(), old(ctx).inputs@) is None
            &&& exists|vs: Seq<Value>|
                #![trigger vs.len()]
                {
                    &&& vs.len() <= old(ctx).outputs@.len()
                    &&& forall|i: int|
                        #![trigger final(ctx).outputs@[i]]
                        0 <= i < vs.len() ==> final(ctx).outputs@[i] == Some(vs[i].spec_host())
                    &&& forall|i: int|
                        #![trigger final(ctx).outputs@[i]]
                        vs.len() <= i < old(ctx).outputs@.len() ==> final(ctx).outputs@[i] == old(
                            ctx,
                        ).outputs@[i]
                }
        },
{
    let tensors = ctx.take_inputs();
    let ghost tensor_views = tensors@;
    proof {
        assert(tensor_views == old(ctx).inputs@);
    }
    let values = match crate::host::decode_values(tensors) {
        Ok(values) => values,
        Err(e) => {
            proof {
                assert(spec_input_error(T::spec_signature(), tensor_views) == Some(e));
            }
            return Err(status_for_op_error::<T>(e.message().as_str()));
        },
    };
    let sig = T::signature();
    proof {
        T::signature_wf();
        assert(sig.inputs.shape() == T::spec_signature().input_shape());
        assert(values@ == tensor_views.map_values(|t: crate::host::HostTensor| t.spec_value()));
    }
    let ghost value_views = values@;
    let inputs = match sig.inputs.try_from_values(values) {
        Ok(inputs) => inputs,
        Err(e) => {
            proof {
                assert(spec_input_error(T::spec_signature(), tensor_views) == Some(e));
            }
            return Err(status_for_op_error::<T>(e.message().as_str()));
        },
    };
    proof {
        assert(spec_input_error(T::spec_signature(), tensor_views) is None);
    }
    proof {
        let model = T::spec_signature();
        let p = model.input_positional.len() as int;
        assert(sig.inputs.spec_types_ok(value_views));
        assert(inputs.positional@ == value_views.take(p));
        assert(inputs.variadic@ == value_views.skip(p));
        assert forall|i: int|
            #![trigger inputs.positional@[i]]
            0 <= i < inputs.positional@.len() implies inputs.positional@[i].spec_element_type()
            == model.input_positional[i] && inputs.positional@[i].wf() by {
            assert(inputs.positional@[i] == value_views[i]);
            assert(sig.inputs.spec_slot_type(i) == Some(value_views[i].spec_element_type()));
        }
        assert forall|i: int|
            #![trigger inputs.variadic@[i]]
            0 <= i < inputs.variadic@.len() implies inputs.variadic@[i].spec_element_type()
            == (match model.input_variadic {
            Option::Some(v) => v.element_type,
            Option::None => inputs.variadic@[i].spec_element_type(),
        }) && inputs.variadic@[i].wf() by {
            assert(inputs.variadic@[i] == value_views[p + i]);
            assert(sig.inputs.spec_slot_type(p + i) == Some(
                value_views[p + i].spec_element_type(),
            ));
        }
        assert(inputs_match_signature(T::spec_signature(), inputs));
    }
    let outputs = match kernel.user_kernel.kernel_compute(inputs) {
        Ok(outputs) => outputs,
        Err(e) => {
            return Err(status_for_op_error::<T>(e.message().as_str()));
        },
    };
    let ghost produced = outputs.values@;
    match outputs.write_to_ort(ctx) {
        Ok(()) => {
            proof {
                assert(produced.len() == produced.len());
            }
            Ok(())
        },
        Err(e) => Err(status_for_op_error::<T>(e.message().as_str())),
    }
}

/// Destroy a kernel, reclaiming its ownership from the host. Consuming the
/// wrapped kernel makes a second destroy, or a compute after destroy,
/// unrepresentable.
pub fn kernel_destroy<T: CustomOp>(kernel: WrappedKernel<T>) {
    let _ = kernel;
}

/// Copy an operator signature, for handing one table to several queries.
pub fn copy_signature(sig: &OpSignature) -> (r: OpSignature)
    ensures
        r.model() == sig.model(),
{
    OpSignature {
        name: sig.name.as_str().to_owned(),
        version: sig.version,
        inputs: InputSignature {
            positional: copy_vec(&sig.inputs.positional),
            variadic: match &sig.inputs.variadic {
                Some(v) => Some(*v),
                None => None,
            },
        },
        outputs: OutputSignature {
            positional: copy_vec(&sig.outputs.positional),
            variadic: match &sig.outputs.variadic {
                Some(v) => Some(*v),
                None => None,
            },
        },
    }
}

} // verus!
