//! The compiler: validates an interface declaration, derives the service and
//! client names, classifies every method, and assigns every non-receiver
//! parameter the position at which its encoded argument must appear in the
//! incoming argument list.

use vstd::prelude::*;
use crate::decl::{
    FnInput, InputModel, InterfaceDeclaration, MemberModel, MethodDeclaration, MethodModel,
    ParamModel, Parameter, TraitMember, view_params,
};
use crate::text::{
    client_name_of, client_suffix, fallible_marker, is_protocol_name, protocol_suffix,
    service_name_of, service_suffix, spec_contains, spec_ends_with, str_contains, stripped_name,
};

verus! {

/// Whether a method's declared return type can represent failure.
///
/// This is a compile-time tag driving the shape of the generated dispatch
/// case, not ownership data.
#[derive(Debug, Clone, Copy, PartialEq, Eq, Structural)]
pub enum ReturnShape {
    /// The method returns a plain value.
    Infallible,
    /// The method returns a value-or-error result.
    Fallible,
}

/// The classification of a textual return type: fallible exactly when the
/// rendering contains the fallible-wrapper marker. This is a deliberate
/// textual heuristic, not a structural type check; a return type that merely
/// mentions the marker is classified fallible as well.
pub open spec fn spec_classify(return_type: Seq<char>) -> ReturnShape {
    if spec_contains(return_type, fallible_marker()) {
        ReturnShape::Fallible
    } else {
        ReturnShape::Infallible
    }
}

/// Classifies a return type by its textual rendering.
pub fn classify_return(return_type: &str) -> (shape: ReturnShape)
    ensures
        shape == spec_classify(return_type@),
{
    if str_contains(return_type, "Result") {
        ReturnShape::Fallible
    } else {
        ReturnShape::Infallible
    }
}

/// A compiled method descriptor: the receiver is recorded separately, and
/// `params` lists the remaining inputs in declaration order — the argument
/// for `params[i]` must appear at position `i` of the incoming argument list.
#[derive(Debug, Clone, PartialEq, Eq)]
pub struct CompiledMethod {
    pub name: String,
    pub has_receiver: bool,
    pub params: Vec<Parameter>,
    pub return_type: String,
    pub shape: ReturnShape,
}

/// Mathematical model of a [`CompiledMethod`].
#[verifier::ext_equal]
pub struct CompiledMethodModel {
    pub name: Seq<char>,
    pub has_receiver: bool,
    pub params: Seq<ParamModel>,
    pub return_type: Seq<char>,
    pub shape: ReturnShape,
}

impl View for CompiledMethod {
    type V = CompiledMethodModel;

    open spec fn view(&self) -> CompiledMethodModel {
        CompiledMethodModel {
            name: self.name@,
            has_receiver: self.has_receiver,
            params: view_params(self.params@),
            return_type: self.return_type@,
            shape: self.shape,
        }
    }
}

/// The element-wise model of a sequence of compiled methods.
pub open spec fn view_methods(s: Seq<CompiledMethod>) -> Seq<CompiledMethodModel> {
    Seq::new(s.len(), |i: int| s[i]@)
}

/// The external parameter list of an input list: the typed inputs in
/// declaration order, with every receiver excluded. The position of a
/// parameter in the result is its zero-based index among non-receiver
/// inputs, which is exactly the position at which its encoded argument
/// must appear in the incoming argument list.
pub open spec fn typed_params(inputs: Seq<InputModel>) -> Seq<ParamModel>
    decreases inputs.len(),
{
    if inputs.len() == 0 {
        Seq::empty()
    } else {
        let rest = typed_params(inputs.drop_last());
        match inputs.last() {
            InputModel::Receiver => rest,
            InputModel::Typed(p) => rest.push(p),
        }
    }
}

/// Whether some input is the receiver.
pub open spec fn spec_has_receiver(inputs: Seq<InputModel>) -> bool {
    exists|i: int| 0 <= i < inputs.len() && inputs[i] is Receiver
}

/// The compiled descriptor of a declared method.
pub open spec fn spec_compile_method(m: MethodModel) -> CompiledMethodModel {
    CompiledMethodModel {
        name: m.name,
        has_receiver: spec_has_receiver(m.inputs),
        params: typed_params(m.inputs),
        return_type: m.return_type,
        shape: spec_classify(m.return_type),
    }
}

/// Compiles one method declaration: records the receiver, assigns every
/// typed parameter its position in the external argument list, and
/// classifies the return type.
pub fn compile_method(m: &MethodDeclaration) -> (c: CompiledMethod)
    ensures
        c@ == spec_compile_method(m@),
{
    let n = m.inputs.len();
    let mut params: Vec<Parameter> = Vec::new();
    let mut has_receiver = false;
    let mut i: usize = 0;
    proof {
        assert(m@.inputs.take(0) =~= Seq::<InputModel>::empty());
    }
    while i < n
        invariant
            i <= n,
            n == m.inputs@.len(),
            m@.inputs.len() == n,
            view_params(params@) == typed_params(m@.inputs.take(i as int)),
            has_receiver == spec_has_receiver(m@.inputs.take(i as int)),
        decreases n - i,
    {
        let ghost prev = m@.inputs.take(i as int);
        let ghost cur = m@.inputs.take(i + 1);
        proof {
            assert(cur.drop_last() =~= prev);
            assert(cur.last() == m@.inputs[i as int]);
        }
        match &m.inputs[i] {
            FnInput::Receiver => {
                proof {
                    assert(m@.inputs[i as int] is Receiver);
                    assert(cur[i as int] is Receiver);
                    assert(spec_has_receiver(cur));
                    assert(typed_params(cur) == typed_params(prev));
                }
                has_receiver = true;
            },
            FnInput::Typed(p) => {
                let ghost old_params = params@;
                params.push(Parameter { name: p.name.clone(), ty: p.ty.clone() });
                proof {
                    assert(m@.inputs[i as int] == InputModel::Typed(p@));
                    assert(view_params(params@) =~= view_params(old_params).push(p@));
                    assert(typed_params(cur) == typed_params(prev).push(p@));
                    if spec_has_receiver(cur) {
                        let w = choose|w: int| 0 <= w < cur.len() && cur[w] is Receiver;
                        assert(w < i ==> prev[w] is Receiver);
                        assert(spec_has_receiver(prev));
                    }
                    if spec_has_receiver(prev) {
                        let w = choose|w: int| 0 <= w < prev.len() && prev[w] is Receiver;
                        assert(cur[w] is Receiver);
                    }
                }
            },
        }
        i += 1;
    }
    proof {
        assert(m@.inputs.take(n as int) =~= m@.inputs);
    }
    let c = CompiledMethod {
        name: m.name.clone(),
        has_receiver,
        params,
        return_type: m.return_type.clone(),
        shape: classify_return(m.return_type.as_str()),
    };
    proof {
        assert(c@ =~= spec_compile_method(m@));
    }
    c
}

/// Inserting the receiver at any position of an input list leaves the
/// external parameter list — and with it every argument index — unchanged:
/// arguments are bound to the typed parameters in declaration order,
/// regardless of whether a receiver precedes them.
pub proof fn lemma_receiver_excluded(inputs: Seq<InputModel>, i: int)
    requires
        0 <= i <= inputs.len(),
    ensures
        typed_params(inputs.insert(i, InputModel::Receiver)) == typed_params(inputs),
    decreases inputs.len(),
{
    let ext = inputs.insert(i, InputModel::Receiver);
    if i == inputs.len() {
        assert(ext.drop_last() =~= inputs);
        assert(ext.last() == InputModel::Receiver);
    } else {
        assert(ext.last() == inputs.last());
        assert(ext.drop_last() =~= inputs.drop_last().insert(i, InputModel::Receiver));
        lemma_receiver_excluded(inputs.drop_last(), i);
    }
}

/// A compile-time error. Generation aborts immediately: no partial output
/// is produced.
#[derive(Debug, Clone, Copy, PartialEq, Eq, Structural)]
pub enum CompileError {
    /// The declared interface name does not end with the protocol suffix.
    NamingError,
    /// The member at `index` is not a method.
    UnsupportedMemberError { index: usize },
}

/// The compiled descriptors of the method members, in declaration order.
pub open spec fn compiled_methods_of(members: Seq<MemberModel>) -> Seq<CompiledMethodModel>
    decreases members.len(),
{
    if members.len() == 0 {
        Seq::empty()
    } else {
        let rest = compiled_methods_of(members.drop_last());
        match members.last() {
            MemberModel::Method(m) => rest.push(spec_compile_method(m)),
            MemberModel::Other(_) => rest,
        }
    }
}

/// Whether every member of the declaration is a method.
pub open spec fn all_members_methods(members: Seq<MemberModel>) -> bool {
    forall|i: int| 0 <= i < members.len() ==> members[i] is Method
}

/// A compiled interface: the validated declaration name, the two derived
/// identifiers, and one compiled descriptor per declared method. This is the
/// dispatch table: built once per declaration and never mutated afterward.
#[derive(Debug, Clone, PartialEq, Eq)]
pub struct CompiledInterface {
    pub protocol_name: String,
    pub service_name: String,
    pub client_name: String,
    pub methods: Vec<CompiledMethod>,
}

/// Mathematical model of a [`CompiledInterface`].
#[verifier::ext_equal]
pub struct CompiledInterfaceModel {
    pub protocol_name: Seq<char>,
    pub service_name: Seq<char>,
    pub client_name: Seq<char>,
    pub methods: Seq<CompiledMethodModel>,
}

impl View for CompiledInterface {
    type V = CompiledInterfaceModel;

    open spec fn view(&self) -> CompiledInterfaceModel {
        CompiledInterfaceModel {
            protocol_name: self.protocol_name@,
            service_name: self.service_name@,
            client_name: self.client_name@,
            methods: view_methods(self.methods@),
        }
    }
}

impl CompiledInterfaceModel {
    /// Whether some declared method bears this name.
    pub open spec fn declares(self, name: Seq<char>) -> bool {
        exists|i: int| 0 <= i < self.methods.len() && self.methods[i].name == name
    }

    /// `i` is the position of the first declared method bearing this name.
    pub open spec fn is_first_match(self, name: Seq<char>, i: int) -> bool {
        &&& 0 <= i < self.methods.len()
        &&& self.methods[i].name == name
        &&& forall|j: int| 0 <= j < i ==> self.methods[j].name != name
    }
}

/// The first match of a name is unique.
pub proof fn lemma_first_match_unique(
    iface: CompiledInterfaceModel,
    name: Seq<char>,
    i: int,
    j: int,
)
    requires
        iface.is_first_match(name, i),
        iface.is_first_match(name, j),
    ensures
        i == j,
{
    if i < j {
        assert(iface.methods[i].name != name);
    }
    if j < i {
        assert(iface.methods[j].name != name);
    }
}

/// The compiled form of a well-formed declaration.
pub open spec fn spec_compile_interface(d: crate::decl::InterfaceModel) -> CompiledInterfaceModel {
    CompiledInterfaceModel {
        protocol_name: d.name,
        service_name: stripped_name(d.name) + service_suffix(),
        client_name: stripped_name(d.name) + client_suffix(),
        methods: compiled_methods_of(d.members),
    }
}

/// Compiles an interface declaration.
///
/// Generation fails with [`CompileError::NamingError`] exactly when the
/// declared name does not end with the protocol suffix, and with
/// [`CompileError::UnsupportedMemberError`] exactly when the name is
/// well-formed but a non-method member is present (the first such member is
/// reported). On success the result carries the derived service and client
/// names and one compiled descriptor per declared method, in order.
pub fn compile_interface(decl: &InterfaceDeclaration) -> (r: Result<
    CompiledInterface,
    CompileError,
>)
    ensures
        (r == Err::<CompiledInterface, CompileError>(CompileError::NamingError)) <==> !spec_ends_with(
            decl@.name,
            protocol_suffix(),
        ),
        match r {
            Ok(c) => all_members_methods(decl@.members) && c@ == spec_compile_interface(decl@),
            Err(e) => match e {
                CompileError::NamingError => !spec_ends_with(decl@.name, protocol_suffix()),
                CompileError::UnsupportedMemberError { index } => {
                    &&& spec_ends_with(decl@.name, protocol_suffix())
                    &&& index < decl@.members.len()
                    &&& !(decl@.members[index as int] is Method)
                    &&& forall|j: int| 0 <= j < index ==> decl@.members[j] is Method
                },
            },
        },
        spec_ends_with(decl@.name, protocol_suffix()) && all_members_methods(decl@.members)
            ==> r is Ok,
{
    if !is_protocol_name(decl.name.as_str()) {
        return Err(CompileError::NamingError);
    }
    let service_name = service_name_of(decl.name.as_str());
    let client_name = client_name_of(decl.name.as_str());
    let n = decl.members.len();
    let mut methods: Vec<CompiledMethod> = Vec::new();
    let mut i: usize = 0;
    proof {
        assert(decl@.members.take(0) =~= Seq::<MemberModel>::empty());
    }
    while i < n
        invariant
            i <= n,
            n == decl.members@.len(),
            decl@.members.len() == n,
            spec_ends_with(decl@.name, protocol_suffix()),
            forall|j: int| 0 <= j < i ==> decl@.members[j] is Method,
            view_methods(methods@) == compiled_methods_of(decl@.members.take(i as int)),
        decreases n - i,
    {
        let ghost prev = decl@.members.take(i as int);
        let ghost cur = decl@.members.take(i + 1);
        proof {
            assert(cur.drop_last() =~= prev);
            assert(cur.last() == decl@.members[i as int]);
        }
        match &decl.members[i] {
            TraitMember::Method(m) => {
                let ghost old_methods = methods@;
                let c = compile_method(m);
                methods.push(c);
                proof {
                    assert(decl@.members[i as int] == MemberModel::Method(m@));
                    assert(view_methods(methods@) =~= view_methods(old_methods).push(c@));
                    assert(compiled_methods_of(cur) == compiled_methods_of(prev).push(
                        spec_compile_method(m@),
                    ));
                }
            },
            TraitMember::Other(_) => {
                proof {
                    assert(decl@.members[i as int] is Other);
                }
                return Err(CompileError::UnsupportedMemberError { index: i });
            },
        }
        i += 1;
    }
    proof {
        assert(decl@.members.take(n as int) =~= decl@.members);
    }
    let c = CompiledInterface { protocol_name: decl.name.clone(), service_name, client_name, methods };
    proof {
        assert(c@ =~= spec_compile_interface(decl@));
    }
    Ok(c)
}

} // verus!
