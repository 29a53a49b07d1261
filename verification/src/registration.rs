//! Registration bookkeeping: the session options and operator domains the
//! host keeps, and the calls the registration entry point makes to add
//! operator tables to a domain and a domain to a session.

use vstd::prelude::*;
use vstd::string::StringExecFns;

use crate::custom_op::OpTable;
use crate::custom_op::SigModel;

verus! {

/// A handle on the host's API table; the version records which revision of
/// the host interface the layer asked for.
#[derive(Clone, Copy, Debug, PartialEq, Eq, Structural)]
pub struct Api {
    pub version: u32,
}

impl Api {
    /// Wrap the host's API table at the given revision.
    pub fn from_raw(version: u32) -> (r: Api)
        ensures
            r.version == version,
    {
        Api { version }
    }
}

/// The execution providers an operator can be registered for.
#[derive(Clone, Copy, Debug, PartialEq, Eq, Structural)]
pub enum ExecutionProviders {
    Cpu,
}

impl ExecutionProviders {
    /// The provider's name, as the host spells it.
    pub fn provider_name(&self) -> (r: &'static str)
        ensures
            r@ == "CPUExecutionProvider"@,
    {
        match self {
            ExecutionProviders::Cpu => "CPUExecutionProvider",
        }
    }
}

/// One operator domain: a name and the tables of the operators registered
/// under it.
#[derive(Debug)]
pub struct CustomOpDomain {
    pub name: String,
    pub ops: Vec<OpTable>,
}

impl CustomOpDomain {
    /// The declared shapes of the registered operators, in registration
    /// order.
    pub open spec fn spec_ops(self) -> Seq<SigModel> {
        self.ops@.map_values(|t: OpTable| t.model())
    }

    /// Register one operator table under this domain.
    pub fn add_op_to_domain(&mut self, op: OpTable) -> (r: Result<(), crate::ErrorStatus>)
        ensures
            r is Ok,
            final(self).name@ == old(self).name@,
            final(self).spec_ops() == old(self).spec_ops() + seq![op.model()],
    {
        let ghost prev = self.ops@;
        self.ops.push(op);
        proof {
            assert(self.ops@.map_values(|t: OpTable| t.model()) =~= prev.map_values(
                |t: OpTable| t.model(),
            ) + seq![op.model()]);
        }
        Ok(())
    }
}

/// The session options under construction: the custom-operator domains
/// attached so far.
#[derive(Debug)]
pub struct SessionOptions {
    pub domains: Vec<CustomOpDomain>,
}

impl SessionOptions {
    /// Wrap the host's session-options object.
    pub fn from_ort() -> (r: SessionOptions)
        ensures
            r.domains@.len() == 0,
    {
        SessionOptions { domains: Vec::new() }
    }

    /// Create a fresh, empty operator domain of the given name and attach
    /// it to these session options.
    pub fn create_custom_op_domain(&mut self, domain: &str) -> (r: Result<(), crate::ErrorStatus>)
        ensures
            r is Ok,
            final(self).domains@.len() == old(self).domains@.len() + 1,
            forall|i: int|
                #![trigger final(self).domains@[i]]
                0 <= i < old(self).domains@.len() ==> final(self).domains@[i] == old(
                    self,
                ).domains@[i],
            final(self).domains@.last().name@ == domain@,
            final(self).domains@.last().ops@.len() == 0,
    {
        self.domains.push(CustomOpDomain { name: domain.to_owned(), ops: Vec::new() });
        Ok(())
    }
}

/// Create a domain holding the given operator tables and attach it to the
/// session options: the whole registration entry point, minus the host's
/// own bookkeeping.
pub fn create_custom_op_domain(
    session_options: &mut SessionOptions,
    domain: &str,
    ops: Vec<OpTable>,
) -> (r: Result<(), crate::ErrorStatus>)
    ensures
        r is Ok,
        final(session_options).domains@.len() == old(session_options).domains@.len() + 1,
        forall|i: int|
            #![trigger final(session_options).domains@[i]]
            0 <= i < old(session_options).domains@.len() ==> final(session_options).domains@[i]
                == old(session_options).domains@[i],
        final(session_options).domains@.last().name@ == domain@,
        final(session_options).domains@.last().spec_ops() == ops@.map_values(
            |t: OpTable| t.model(),
        ),
{
    session_options.domains.push(CustomOpDomain { name: domain.to_owned(), ops });
    Ok(())
}

} // verus!
