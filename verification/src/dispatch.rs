//! Dispatch: routing an incoming method name and an ordered list of opaque
//! argument values to the correct handler, and normalizing the handler's
//! result into the transport-agnostic representation.
//!
//! Each dispatch invocation is independent and stateless: a single
//! lookup-and-invoke step with no retry, no partial state and no
//! re-entrancy at the dispatcher level.

use vstd::prelude::*;
use crate::compile::{
    CompiledInterface, CompiledMethod, CompiledMethodModel, ReturnShape, spec_compile_method,
    typed_params,
};
use crate::decl::{MethodModel, ParamModel, Parameter};

verus! {

/// The transport-agnostic encoded form of any parameter or return value.
///
/// Encoding and decoding are the job of an outside collaborator; the
/// dispatcher only moves these values around, never looks inside them.
/// Structured values that none of the scalar forms cover travel as their
/// raw encoded text.
#[derive(Debug, Clone, PartialEq, Eq)]
pub enum OpaqueValue {
    Null,
    Bool(bool),
    Int(i64),
    Str(String),
    Raw(String),
}

/// Mathematical model of an [`OpaqueValue`].
pub enum ValueModel {
    Null,
    Bool(bool),
    Int(i64),
    Str(Seq<char>),
    Raw(Seq<char>),
}

impl View for OpaqueValue {
    type V = ValueModel;

    open spec fn view(&self) -> ValueModel {
        match self {
            OpaqueValue::Null => ValueModel::Null,
            OpaqueValue::Bool(b) => ValueModel::Bool(*b),
            OpaqueValue::Int(i) => ValueModel::Int(*i),
            OpaqueValue::Str(s) => ValueModel::Str(s@),
            OpaqueValue::Raw(s) => ValueModel::Raw(s@),
        }
    }
}

/// The element-wise model of a sequence of opaque values.
pub open spec fn view_values(s: Seq<OpaqueValue>) -> Seq<ValueModel> {
    Seq::new(s.len(), |i: int| s[i]@)
}

/// An explicit copy of an opaque value.
pub fn clone_value(v: &OpaqueValue) -> (r: OpaqueValue)
    ensures
        r@ == v@,
{
    match v {
        OpaqueValue::Null => OpaqueValue::Null,
        OpaqueValue::Bool(b) => OpaqueValue::Bool(*b),
        OpaqueValue::Int(i) => OpaqueValue::Int(*i),
        OpaqueValue::Str(s) => OpaqueValue::Str(s.clone()),
        OpaqueValue::Raw(s) => OpaqueValue::Raw(s.clone()),
    }
}

/// The fixed generic code carried by every normalized method-level error.
pub const GENERIC_ERROR_CODE: u64 = 1;

/// The normalized error envelope for a fallible method whose invocation
/// failed: a numeric code, the error's display text, and the error's own
/// encoded form as details.
#[derive(Debug, Clone, PartialEq, Eq)]
pub struct ServerError {
    pub code: u64,
    pub message: String,
    pub details: OpaqueValue,
}

/// Mathematical model of a [`ServerError`].
pub struct ServerErrorModel {
    pub code: u64,
    pub message: Seq<char>,
    pub details: ValueModel,
}

impl View for ServerError {
    type V = ServerErrorModel;

    open spec fn view(&self) -> ServerErrorModel {
        ServerErrorModel { code: self.code, message: self.message@, details: self.details@ }
    }
}

/// Failure to supply or decode an incoming argument. This aborts the
/// in-flight call as an explicit, recoverable error — deliberately kept
/// distinct from method-level fallible errors, which travel as
/// [`ServerError`] values.
#[derive(Debug, Clone, Copy, PartialEq, Eq, Structural)]
pub enum DecodeFailure {
    /// The argument list holds no value for the parameter at `index`.
    MissingArgument { index: usize },
    /// The value at `index` could not be decoded into the declared
    /// parameter type.
    Undecodable { index: usize },
}

/// An argument bound to its declared parameter: the value at position `i`
/// of the incoming list paired with the `i`-th external parameter.
#[derive(Debug, Clone, PartialEq, Eq)]
pub struct BoundArgument {
    pub param: Parameter,
    pub value: OpaqueValue,
}

/// Mathematical model of a [`BoundArgument`].
pub struct BoundModel {
    pub param: ParamModel,
    pub value: ValueModel,
}

impl View for BoundArgument {
    type V = BoundModel;

    open spec fn view(&self) -> BoundModel {
        BoundModel { param: self.param@, value: self.value@ }
    }
}

/// The element-wise model of a sequence of bound arguments.
pub open spec fn view_bound(s: Seq<BoundArgument>) -> Seq<BoundModel> {
    Seq::new(s.len(), |i: int| s[i]@)
}

/// The positional binding: the value at position `i` paired with the `i`-th
/// parameter.
pub open spec fn spec_bind(params: Seq<ParamModel>, args: Seq<ValueModel>) -> Seq<BoundModel> {
    Seq::new(params.len(), |i: int| BoundModel { param: params[i], value: args[i] })
}

/// Binds the incoming argument list to a method's external parameters:
/// the argument for parameter `i` is taken from position `i`. Fails exactly
/// when the list is shorter than the parameter list, reporting the first
/// missing position; extra trailing arguments are ignored.
pub fn bind_arguments(method: &CompiledMethod, args: &Vec<OpaqueValue>) -> (r: Result<
    Vec<BoundArgument>,
    DecodeFailure,
>)
    ensures
        match r {
            Ok(bound) => method@.params.len() <= args@.len() && view_bound(bound@) == spec_bind(
                method@.params,
                view_values(args@),
            ),
            Err(f) => args@.len() < method@.params.len() && f == (DecodeFailure::MissingArgument {
                index: args@.len() as usize,
            }),
        },
{
    let n = method.params.len();
    if args.len() < n {
        return Err(DecodeFailure::MissingArgument { index: args.len() });
    }
    let mut bound: Vec<BoundArgument> = Vec::new();
    let mut i: usize = 0;
    while i < n
        invariant
            i <= n,
            n == method.params@.len(),
            n <= args@.len(),
            bound@.len() == i,
            forall|j: int| 0 <= j < i ==> #[trigger] bound@[j]@ == (BoundModel {
                param: method@.params[j],
                value: args@[j]@,
            }),
        decreases n - i,
    {
        let p = &method.params[i];
        bound.push(
            BoundArgument {
                param: Parameter { name: p.name.clone(), ty: p.ty.clone() },
                value: clone_value(&args[i]),
            },
        );
        i += 1;
    }
    proof {
        assert(view_bound(bound@) =~= spec_bind(method@.params, view_values(args@)));
    }
    Ok(bound)
}

/// Parameter-ordering round trip: for a method with external parameters
/// `p0, p1, ..., pn` and an argument list `v0, v1, ..., vn`, the binding
/// pairs `vj` with `pj` for every `j` — and `pj` is the `j`-th typed input
/// of the declaration, regardless of any receiver among the inputs.
pub proof fn lemma_argument_round_trip(m: MethodModel, args: Seq<ValueModel>, j: int)
    requires
        typed_params(m.inputs).len() <= args.len(),
        0 <= j < typed_params(m.inputs).len(),
    ensures
        spec_bind(spec_compile_method(m).params, args)[j].param == typed_params(m.inputs)[j],
        spec_bind(spec_compile_method(m).params, args)[j].value == args[j],
{
}

/// The outcome that the implementing instance reports for a method
/// classified infallible: either an argument failed to decode into its
/// declared type, or the method ran to completion and its return value was
/// encoded.
#[derive(Debug, Clone, PartialEq, Eq)]
pub enum PlainOutcome {
    /// The bound argument at `index` could not be decoded.
    Undecodable { index: usize },
    /// The encoded return value.
    Returned { value: OpaqueValue },
}

/// A fallible method's failure as the collaborator reports it: the error's
/// display text and the error's own encoded form.
#[derive(Debug, Clone, PartialEq, Eq)]
pub struct ErrorReport {
    pub message: String,
    pub details: OpaqueValue,
}

/// The outcome that the implementing instance reports for a method
/// classified fallible: a decode failure, an encoded success value, or an
/// error report.
#[derive(Debug, PartialEq, Eq)]
pub enum FallibleOutcome {
    /// The bound argument at `index` could not be decoded.
    Undecodable { index: usize },
    /// The invocation completed with an encoded value or an error report.
    Returned { result: Result<OpaqueValue, ErrorReport> },
}

/// The final shape of one dispatch invocation.
///
/// The outer `Result` carries the explicit argument-decode abort; inside,
/// `None` signals "no such method", and a present result carries either the
/// encoded return value or the normalized method-level error.
pub type DispatchOutcome = Result<Option<Result<OpaqueValue, ServerError>>, DecodeFailure>;

/// The implementing instance behind a compiled interface, supplied by the
/// user of the generated dispatcher. It receives the method name and the
/// positionally bound arguments; decoding each argument into its declared
/// parameter type, running the method and encoding the result are its job,
/// through whatever serialization collaborator it holds.
pub trait ProtocolHandler {
    /// Runs a method classified infallible.
    fn handle_infallible(&self, method: &str, args: Vec<BoundArgument>) -> PlainOutcome;

    /// Runs a method classified fallible.
    fn handle_fallible(&self, method: &str, args: Vec<BoundArgument>) -> FallibleOutcome;
}

/// Normalizes the outcome of a method classified infallible: a returned
/// value becomes a present success carrying exactly the encoded return
/// value; a decode failure aborts the call. No failure result can arise.
pub fn complete_infallible(outcome: PlainOutcome) -> (r: DispatchOutcome)
    ensures
        match outcome {
            PlainOutcome::Undecodable { index } => r == Err::<
                Option<Result<OpaqueValue, ServerError>>,
                DecodeFailure,
            >(DecodeFailure::Undecodable { index }),
            PlainOutcome::Returned { value } => r matches Ok(Some(Ok(v))) && v == value,
        },
{
    match outcome {
        PlainOutcome::Undecodable { index } => Err(DecodeFailure::Undecodable { index }),
        PlainOutcome::Returned { value } => Ok(Some(Ok(value))),
    }
}

/// Normalizes the outcome of a method classified fallible: a success value
/// becomes a present success; an error report becomes a present failure
/// carrying a [`ServerError`] with the fixed generic code, the report's
/// display text and its encoded detail; a decode failure aborts the call.
pub fn complete_fallible(outcome: FallibleOutcome) -> (r: DispatchOutcome)
    ensures
        match outcome {
            FallibleOutcome::Undecodable { index } => r == Err::<
                Option<Result<OpaqueValue, ServerError>>,
                DecodeFailure,
            >(DecodeFailure::Undecodable { index }),
            FallibleOutcome::Returned { result: Ok(value) } => r matches Ok(Some(Ok(v))) && v
                == value,
            FallibleOutcome::Returned { result: Err(report) } => r matches Ok(Some(Err(e)))
                && e.code == GENERIC_ERROR_CODE && e.message == report.message && e.details
                == report.details,
        },
{
    match outcome {
        FallibleOutcome::Undecodable { index } => Err(DecodeFailure::Undecodable { index }),
        FallibleOutcome::Returned { result: Ok(value) } => Ok(Some(Ok(value))),
        FallibleOutcome::Returned { result: Err(report) } => Ok(
            Some(
                Err(
                    ServerError {
                        code: GENERIC_ERROR_CODE,
                        message: report.message,
                        details: report.details,
                    },
                ),
            ),
        ),
    }
}

/// What one dispatch invocation guarantees for the first declared method
/// matching the requested name, whatever the implementing instance reported.
pub open spec fn dispatch_claims(
    m: CompiledMethodModel,
    args_len: nat,
    r: DispatchOutcome,
) -> bool {
    &&& (args_len < m.params.len() ==> r == Err::<
        Option<Result<OpaqueValue, ServerError>>,
        DecodeFailure,
    >(DecodeFailure::MissingArgument { index: args_len as usize }))
    &&& (args_len >= m.params.len() ==> {
        &&& (r matches Err(f) ==> f is Undecodable)
        &&& (r matches Ok(o) ==> o is Some)
        &&& (m.shape is Infallible ==> !(r matches Ok(Some(Err(_)))))
        &&& (r matches Ok(Some(Err(e))) ==> e.code == GENERIC_ERROR_CODE && m.shape is Fallible)
    })
}

impl CompiledInterface {
    /// Looks the requested name up in the dispatch table: the position of
    /// the first declared method bearing it, or `None` if no method does.
    pub fn find_method(&self, method: &str) -> (r: Option<usize>)
        ensures
            match r {
                Some(i) => self@.is_first_match(method@, i as int),
                None => !self@.declares(method@),
            },
    {
        let n = self.methods.len();
        let mut i: usize = 0;
        while i < n
            invariant
                i <= n,
                n == self.methods@.len(),
                self@.methods.len() == n,
                forall|j: int| 0 <= j < i ==> self@.methods[j].name != method@,
            decreases n - i,
        {
            if crate::text::str_eq(self.methods[i].name.as_str(), method) {
                return Some(i);
            }
            i += 1;
        }
        None
    }

    /// One dispatch invocation: looks the method name up, binds the
    /// arguments positionally, hands them to the implementing instance and
    /// normalizes what comes back.
    ///
    /// Returns `Ok(None)` exactly when the name is not declared — "no such
    /// method" is never conflated with a present result. For the matched
    /// method, a missing argument aborts with the explicit decode failure;
    /// otherwise the result is a present success or, only for a fallible
    /// method, a present failure carrying the fixed generic code.
    pub fn respond<H: ProtocolHandler>(
        &self,
        handler: &H,
        method: &str,
        args: &Vec<OpaqueValue>,
    ) -> (r: DispatchOutcome)
        ensures
            (r == Ok::<Option<Result<OpaqueValue, ServerError>>, DecodeFailure>(None))
                <==> !self@.declares(method@),
            forall|i: int| self@.is_first_match(method@, i) ==> dispatch_claims(
                self@.methods[i],
                args@.len(),
                r,
            ),
    {
        match self.find_method(method) {
            None => Ok(None),
            Some(i) => {
                let m = &self.methods[i];
                let r: DispatchOutcome = match bind_arguments(m, args) {
                    Err(f) => Err(f),
                    Ok(bound) => match m.shape {
                        ReturnShape::Infallible => complete_infallible(
                            handler.handle_infallible(method, bound),
                        ),
                        ReturnShape::Fallible => complete_fallible(
                            handler.handle_fallible(method, bound),
                        ),
                    },
                };
                proof {
                    assert(self@.declares(method@));
                    assert forall|k: int| self@.is_first_match(method@, k) implies dispatch_claims(
                        self@.methods[k],
                        args@.len(),
                        r,
                    ) by {
                        crate::compile::lemma_first_match_unique(self@, method@, i as int, k);
                    }
                }
                r
            },
        }
    }
}

/// The generated server wrapper: a compiled interface together with the
/// implementing instance it dispatches into.
pub struct Service<H: ProtocolHandler> {
    pub interface: CompiledInterface,
    pub handler: H,
}

impl<H: ProtocolHandler> Service<H> {
    /// Wraps an implementing instance behind a compiled interface.
    pub fn new(interface: CompiledInterface, handler: H) -> (s: Service<H>)
        ensures
            s.interface == interface,
            s.handler == handler,
    {
        Service { interface, handler }
    }

    /// Dispatches one invocation into the held instance; see
    /// [`CompiledInterface::respond`].
    pub fn respond(&self, method: &str, args: &Vec<OpaqueValue>) -> (r: DispatchOutcome)
        ensures
            (r == Ok::<Option<Result<OpaqueValue, ServerError>>, DecodeFailure>(None))
                <==> !self.interface@.declares(method@),
            forall|i: int| self.interface@.is_first_match(method@, i) ==> dispatch_claims(
                self.interface@.methods[i],
                args@.len(),
                r,
            ),
    {
        self.interface.respond(&self.handler, method, args)
    }
}

} // verus!
