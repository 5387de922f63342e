//! The input data model: abstract interface declarations.
//!
//! An interface declaration is the raw shape handed to the compiler: a name
//! and an ordered list of trait members. Only method members are supported;
//! anything else is rejected during compilation.

use vstd::prelude::*;

verus! {

/// A formal parameter of a method: a name and the textual rendering of its
/// declared type. Types are opaque to this compiler beyond being decodable
/// from the transport value representation.
#[derive(Debug, Clone, PartialEq, Eq)]
pub struct Parameter {
    pub name: String,
    pub ty: String,
}

/// Mathematical model of a [`Parameter`].
pub struct ParamModel {
    pub name: Seq<char>,
    pub ty: Seq<char>,
}

impl View for Parameter {
    type V = ParamModel;

    open spec fn view(&self) -> ParamModel {
        ParamModel { name: self.name@, ty: self.ty@ }
    }
}

/// One formal input of a method in declaration order: either the implicit
/// receiver ("the implementing instance") or an ordinary typed parameter.
#[derive(Debug, Clone, PartialEq, Eq)]
pub enum FnInput {
    /// The receiver. It is excluded from the external argument list and is
    /// supplied implicitly by the service wrapper at dispatch time.
    Receiver,
    /// An ordinary parameter, which takes the next position in the external
    /// argument list.
    Typed(Parameter),
}

/// Mathematical model of an [`FnInput`].
pub enum InputModel {
    Receiver,
    Typed(ParamModel),
}

impl View for FnInput {
    type V = InputModel;

    open spec fn view(&self) -> InputModel {
        match self {
            FnInput::Receiver => InputModel::Receiver,
            FnInput::Typed(p) => InputModel::Typed(p@),
        }
    }
}

/// A declared method: a name, the formal inputs in declaration order, and the
/// textual rendering of the declared return type.
#[derive(Debug, Clone, PartialEq, Eq)]
pub struct MethodDeclaration {
    pub name: String,
    pub inputs: Vec<FnInput>,
    pub return_type: String,
}

/// Mathematical model of a [`MethodDeclaration`].
pub struct MethodModel {
    pub name: Seq<char>,
    pub inputs: Seq<InputModel>,
    pub return_type: Seq<char>,
}

/// The element-wise model of a sequence of inputs.
pub open spec fn view_inputs(s: Seq<FnInput>) -> Seq<InputModel> {
    Seq::new(s.len(), |i: int| s[i]@)
}

/// The element-wise model of a sequence of parameters.
pub open spec fn view_params(s: Seq<Parameter>) -> Seq<ParamModel> {
    Seq::new(s.len(), |i: int| s[i]@)
}

impl View for MethodDeclaration {
    type V = MethodModel;

    open spec fn view(&self) -> MethodModel {
        MethodModel {
            name: self.name@,
            inputs: view_inputs(self.inputs@),
            return_type: self.return_type@,
        }
    }
}

/// One member of the declared interface. The compiler accepts only methods;
/// any other member kind aborts compilation.
#[derive(Debug, Clone, PartialEq, Eq)]
pub enum TraitMember {
    /// A method declaration.
    Method(MethodDeclaration),
    /// Any non-method member, recorded with its name for error reporting.
    Other(String),
}

/// Mathematical model of a [`TraitMember`].
pub enum MemberModel {
    Method(MethodModel),
    Other(Seq<char>),
}

impl View for TraitMember {
    type V = MemberModel;

    open spec fn view(&self) -> MemberModel {
        match self {
            TraitMember::Method(m) => MemberModel::Method(m@),
            TraitMember::Other(n) => MemberModel::Other(n@),
        }
    }
}

/// The element-wise model of a sequence of members.
pub open spec fn view_members(s: Seq<TraitMember>) -> Seq<MemberModel> {
    Seq::new(s.len(), |i: int| s[i]@)
}

/// A raw interface declaration: the declared name (which must end in the
/// protocol suffix) and the ordered member list.
#[derive(Debug, Clone, PartialEq, Eq)]
pub struct InterfaceDeclaration {
    pub name: String,
    pub members: Vec<TraitMember>,
}

/// Mathematical model of an [`InterfaceDeclaration`].
pub struct InterfaceModel {
    pub name: Seq<char>,
    pub members: Seq<MemberModel>,
}

impl View for InterfaceDeclaration {
    type V = InterfaceModel;

    open spec fn view(&self) -> InterfaceModel {
        InterfaceModel { name: self.name@, members: view_members(self.members@) }
    }
}

} // verus!
