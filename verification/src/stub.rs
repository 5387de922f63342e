//! The client-side stub skeleton: one client-facing method per declared
//! method, with the return type wrapped to add a transport-error
//! alternative. Call forwarding is deferred to the transport collaborator;
//! until that is wired, invoking any stub method deterministically signals
//! not-implemented — never a silent no-op.

use vstd::prelude::*;
use vstd::string::StringExecFns;
use crate::compile::{CompiledInterface, CompiledMethodModel};
use crate::decl::{ParamModel, Parameter, view_params};
use crate::dispatch::OpaqueValue;

verus! {

/// The error alternative added to every stub method's return type. The real
/// transport collaborator owns this channel; the skeleton produces only the
/// not-implemented signal.
#[derive(Debug, Clone, Copy, PartialEq, Eq, Structural)]
pub enum TransportError {
    /// The call-forwarding logic has not been wired yet.
    NotImplemented,
}

/// The textual return type of a stub method: the declared return type
/// wrapped with the transport-error alternative.
pub open spec fn wrapped_return_type(return_type: Seq<char>) -> Seq<char> {
    "Result<"@ + return_type + ", TransportError>"@
}

/// A client-facing method signature mirroring one declared method.
#[derive(Debug, Clone, PartialEq, Eq)]
pub struct StubMethod {
    pub name: String,
    pub params: Vec<Parameter>,
    pub wrapped_return: String,
}

/// Mathematical model of a [`StubMethod`].
#[verifier::ext_equal]
pub struct StubMethodModel {
    pub name: Seq<char>,
    pub params: Seq<ParamModel>,
    pub wrapped_return: Seq<char>,
}

impl View for StubMethod {
    type V = StubMethodModel;

    open spec fn view(&self) -> StubMethodModel {
        StubMethodModel {
            name: self.name@,
            params: view_params(self.params@),
            wrapped_return: self.wrapped_return@,
        }
    }
}

/// The element-wise model of a sequence of stub methods.
pub open spec fn view_stub_methods(s: Seq<StubMethod>) -> Seq<StubMethodModel> {
    Seq::new(s.len(), |i: int| s[i]@)
}

/// The stub signature derived from one compiled method.
pub open spec fn spec_stub_method(m: CompiledMethodModel) -> StubMethodModel {
    StubMethodModel {
        name: m.name,
        params: m.params,
        wrapped_return: wrapped_return_type(m.return_type),
    }
}

/// The client stub skeleton: the derived client name and one mirrored
/// method signature per declared method.
#[derive(Debug, Clone, PartialEq, Eq)]
pub struct ClientStub {
    pub client_name: String,
    pub methods: Vec<StubMethod>,
}

/// Mathematical model of a [`ClientStub`].
#[verifier::ext_equal]
pub struct ClientStubModel {
    pub client_name: Seq<char>,
    pub methods: Seq<StubMethodModel>,
}

impl View for ClientStub {
    type V = ClientStubModel;

    open spec fn view(&self) -> ClientStubModel {
        ClientStubModel { client_name: self.client_name@, methods: view_stub_methods(self.methods@) }
    }
}

/// The stub skeleton derived from a compiled interface.
pub open spec fn spec_stub(c: crate::compile::CompiledInterfaceModel) -> ClientStubModel {
    ClientStubModel {
        client_name: c.client_name,
        methods: Seq::new(c.methods.len(), |i: int| spec_stub_method(c.methods[i])),
    }
}

/// Wraps a declared return type with the transport-error alternative.
fn wrap_return(return_type: &str) -> (r: String)
    ensures
        r@ == wrapped_return_type(return_type@),
{
    let mut out = String::from_str("Result<");
    out.append(return_type);
    out.append(", TransportError>");
    proof {
        assert(out@ =~= wrapped_return_type(return_type@));
    }
    out
}

/// An explicit copy of a parameter list.
fn clone_params(params: &Vec<Parameter>) -> (r: Vec<Parameter>)
    ensures
        view_params(r@) == view_params(params@),
{
    let n = params.len();
    let mut out: Vec<Parameter> = Vec::new();
    let mut i: usize = 0;
    while i < n
        invariant
            i <= n,
            n == params@.len(),
            out@.len() == i,
            forall|j: int| 0 <= j < i ==> #[trigger] out@[j]@ == params@[j]@,
        decreases n - i,
    {
        let p = &params[i];
        out.push(Parameter { name: p.name.clone(), ty: p.ty.clone() });
        i += 1;
    }
    proof {
        assert(view_params(out@) =~= view_params(params@));
    }
    out
}

/// Builds the client stub skeleton for a compiled interface: the method set
/// and parameter lists are mirrored exactly, and every return type is
/// wrapped with the transport-error alternative.
pub fn build_stub(interface: &CompiledInterface) -> (s: ClientStub)
    ensures
        s@ == spec_stub(interface@),
{
    let n = interface.methods.len();
    let mut methods: Vec<StubMethod> = Vec::new();
    let mut i: usize = 0;
    while i < n
        invariant
            i <= n,
            n == interface.methods@.len(),
            interface@.methods.len() == n,
            methods@.len() == i,
            forall|j: int| 0 <= j < i ==> #[trigger] methods@[j]@ == spec_stub_method(
                interface@.methods[j],
            ),
        decreases n - i,
    {
        let m = &interface.methods[i];
        let stub = StubMethod {
            name: m.name.clone(),
            params: clone_params(&m.params),
            wrapped_return: wrap_return(m.return_type.as_str()),
        };
        proof {
            assert(stub@ =~= spec_stub_method(interface@.methods[i as int]));
        }
        methods.push(stub);
        i += 1;
    }
    let s = ClientStub { client_name: interface.client_name.clone(), methods };
    proof {
        assert(s@ =~= spec_stub(interface@));
    }
    s
}

impl ClientStub {
    /// Invokes a stub method before the transport is wired: deterministically
    /// signals not-implemented, whatever the method and arguments are.
    pub fn call(&self, _method: &str, _args: &Vec<OpaqueValue>) -> (r: Result<
        OpaqueValue,
        TransportError,
    >)
        ensures
            r == Err::<OpaqueValue, TransportError>(TransportError::NotImplemented),
    {
        Err(TransportError::NotImplemented)
    }
}

} // verus!
