//! The three units that come out: the function, a trait with one method, and
//! an impl of the trait that forwards to the function.

use vstd::prelude::*;
use crate::error::Error;
use crate::signature::{
    copy_synthetic_parameters, SplitSignature, SplitSignatureView, SyntheticParameter,
    SyntheticParameterView,
};
use crate::syntax::{
    copy_generics, copy_option_type, copy_texts, DeclaredType, FunctionDeclaration,
    FunctionDeclarationView, GenericParameter, GenericParameterView, Text, TypeTree,
};

verus! {

/// The view of a [`MethodSignature`].
pub struct MethodSignatureView {
    pub name: Text,
    pub parameters: Seq<SyntheticParameterView>,
    pub return_type: Option<TypeTree>,
}

/// The signature of the generated method: `fn name(self, parameters) ->
/// return_type`. The value that the method is called on is always taken as
/// `self`, by value, and is not listed among the parameters.
#[derive(Debug, PartialEq, Eq)]
pub struct MethodSignature {
    pub name: String,
    pub parameters: Vec<SyntheticParameter>,
    pub return_type: Option<DeclaredType>,
}

impl View for MethodSignature {
    type V = MethodSignatureView;

    open spec fn view(&self) -> MethodSignatureView {
        MethodSignatureView {
            name: self.name@,
            parameters: self.parameters.deep_view(),
            return_type: self.return_type.deep_view(),
        }
    }
}

impl DeepView for MethodSignature {
    type V = MethodSignatureView;

    open spec fn deep_view(&self) -> MethodSignatureView {
        self.view()
    }
}

/// The view of a [`CapabilityDeclaration`].
pub struct CapabilityDeclarationView {
    pub visibility: Text,
    pub name: Text,
    pub generics: Seq<GenericParameterView>,
    pub where_constraints: Seq<Text>,
    pub method: MethodSignatureView,
}

/// The declaration of a trait with one method and no default body. The trait
/// is generic over the parameters listed in `generics`.
#[derive(Debug, PartialEq, Eq)]
pub struct CapabilityDeclaration {
    pub visibility: String,
    pub name: String,
    pub generics: Vec<GenericParameter>,
    pub where_constraints: Vec<String>,
    pub method: MethodSignature,
}

impl View for CapabilityDeclaration {
    type V = CapabilityDeclarationView;

    open spec fn view(&self) -> CapabilityDeclarationView {
        CapabilityDeclarationView {
            visibility: self.visibility@,
            name: self.name@,
            generics: self.generics.deep_view(),
            where_constraints: self.where_constraints.deep_view(),
            method: self.method@,
        }
    }
}

impl DeepView for CapabilityDeclaration {
    type V = CapabilityDeclarationView;

    open spec fn deep_view(&self) -> CapabilityDeclarationView {
        self.view()
    }
}

/// The view of a [`ForwardingCall`].
pub struct ForwardingCallView {
    pub function: Text,
    pub arguments: Seq<Text>,
}

/// A method body that is one call: `function(self, arguments)`. The value
/// that the method is called on is always passed first and is not listed
/// among the arguments.
#[derive(Debug, PartialEq, Eq)]
pub struct ForwardingCall {
    pub function: String,
    pub arguments: Vec<String>,
}

impl View for ForwardingCall {
    type V = ForwardingCallView;

    open spec fn view(&self) -> ForwardingCallView {
        ForwardingCallView { function: self.function@, arguments: self.arguments.deep_view() }
    }
}

impl DeepView for ForwardingCall {
    type V = ForwardingCallView;

    open spec fn deep_view(&self) -> ForwardingCallView {
        self.view()
    }
}

/// The view of a [`Conformance`].
pub struct ConformanceView {
    pub generics: Seq<GenericParameterView>,
    pub capability: Text,
    pub receiver_type: TypeTree,
    pub where_constraints: Seq<Text>,
    pub method: MethodSignatureView,
    pub body: ForwardingCallView,
}

/// An impl of the trait named `capability`, with the generic parameters of
/// `generics` as its arguments, for `receiver_type`. The impl is generic over
/// `generics`, and its one method has the given body.
#[derive(Debug, PartialEq, Eq)]
pub struct Conformance {
    pub generics: Vec<GenericParameter>,
    pub capability: String,
    pub receiver_type: DeclaredType,
    pub where_constraints: Vec<String>,
    pub method: MethodSignature,
    pub body: ForwardingCall,
}

impl View for Conformance {
    type V = ConformanceView;

    open spec fn view(&self) -> ConformanceView {
        ConformanceView {
            generics: self.generics.deep_view(),
            capability: self.capability@,
            receiver_type: self.receiver_type@,
            where_constraints: self.where_constraints.deep_view(),
            method: self.method@,
            body: self.body@,
        }
    }
}

impl DeepView for Conformance {
    type V = ConformanceView;

    open spec fn deep_view(&self) -> ConformanceView {
        self.view()
    }
}

/// The view of an [`Emission`].
pub struct EmissionView {
    pub function: FunctionDeclarationView,
    pub capability: CapabilityDeclarationView,
    pub conformance: ConformanceView,
}

/// The three units, which come out together or not at all.
#[derive(Debug, PartialEq, Eq)]
pub struct Emission {
    pub function: FunctionDeclaration,
    pub capability: CapabilityDeclaration,
    pub conformance: Conformance,
}

impl View for Emission {
    type V = EmissionView;

    open spec fn view(&self) -> EmissionView {
        EmissionView {
            function: self.function@,
            capability: self.capability@,
            conformance: self.conformance@,
        }
    }
}

impl DeepView for Emission {
    type V = EmissionView;

    open spec fn deep_view(&self) -> EmissionView {
        self.view()
    }
}

impl EmissionView {
    /// Whether the three units belong together: the trait and the impl are
    /// named after the function and have its visibility, generic parameters
    /// and where constraints; the impl is for the type of the function's
    /// first parameter; both declare the same method, named after the
    /// function, with the function's return type and one parameter for each
    /// parameter of the function after the first, of the same type; and the
    /// method's body calls the function with `self` and those parameters.
    pub open spec fn coherent(self) -> bool {
        let function = self.function;
        let method = self.capability.method;
        &&& function.params.len() > 0
        &&& function.params[0] is Named
        &&& self.capability.visibility == function.visibility
        &&& self.capability.name == function.name
        &&& self.capability.generics == function.generics
        &&& self.capability.where_constraints == function.where_constraints
        &&& self.conformance.capability == function.name
        &&& self.conformance.generics == function.generics
        &&& self.conformance.where_constraints == function.where_constraints
        &&& self.conformance.receiver_type == function.params[0]->ty
        &&& self.conformance.method == method
        &&& self.conformance.body.function == function.name
        &&& self.conformance.body.arguments == names_of(method.parameters)
        &&& method.name == function.name
        &&& method.return_type == function.return_type
        &&& method.parameters.len() == function.params.len() - 1
        &&& forall|k: int|
            0 <= k < method.parameters.len() ==> {
                &&& function.params[k + 1] is Named
                &&& (#[trigger] method.parameters[k]).ty == function.params[k + 1]->ty
            }
    }
}

/// What an expansion ends in: the three units, or the one error that stopped
/// the work.
pub type EmissionResult = Result<Emission, Error>;

/// The names of `parameters`, in order.
pub open spec fn names_of(parameters: Seq<SyntheticParameterView>) -> Seq<Text> {
    Seq::new(parameters.len(), |k: int| parameters[k].name)
}

/// The signature of the method for `decl`: the function's name and return
/// type, and the parameters after the first under their new names.
pub open spec fn method_for(
    decl: FunctionDeclarationView,
    split: SplitSignatureView,
) -> MethodSignatureView {
    MethodSignatureView {
        name: decl.name,
        parameters: split.remaining,
        return_type: decl.return_type,
    }
}

/// The units for `decl`, whose parameter list splits into `split`.
///
/// The function is `decl` itself. The trait has the function's name,
/// visibility, generic parameters and where constraints. The impl is for the
/// type of the function's first parameter, over the same generic parameters
/// and where constraints, and its method calls the function with `self` and
/// then the method's parameters in order.
pub open spec fn emitted(decl: FunctionDeclarationView, split: SplitSignatureView) -> EmissionView {
    EmissionView {
        function: decl,
        capability: CapabilityDeclarationView {
            visibility: decl.visibility,
            name: decl.name,
            generics: decl.generics,
            where_constraints: decl.where_constraints,
            method: method_for(decl, split),
        },
        conformance: ConformanceView {
            generics: decl.generics,
            capability: decl.name,
            receiver_type: split.receiver_type,
            where_constraints: decl.where_constraints,
            method: method_for(decl, split),
            body: ForwardingCallView { function: decl.name, arguments: names_of(split.remaining) },
        },
    }
}

/// Lists the names of `parameters`.
pub fn argument_names(parameters: &Vec<SyntheticParameter>) -> (names: Vec<String>)
    ensures
        names.deep_view() == names_of(parameters.deep_view()),
{
    let mut names: Vec<String> = Vec::new();
    let mut i: usize = 0;
    while i < parameters.len()
        invariant
            i <= parameters.len(),
            names.len() == i,
            forall|j: int| 0 <= j < i ==> names[j]@ == parameters[j]@.name,
        decreases parameters.len() - i,
    {
        names.push(parameters[i].name.clone());
        i += 1;
    }
    assert(names.deep_view() =~= names_of(parameters.deep_view()));
    names
}

/// Puts the three units together for `decl`, whose parameter list has been
/// split into `split`.
pub fn emit(decl: FunctionDeclaration, split: SplitSignature) -> (units: Emission)
    ensures
        units@ == emitted(decl@, split@),
{
    let body = ForwardingCall {
        function: decl.name.clone(),
        arguments: argument_names(&split.remaining),
    };
    let trait_method = MethodSignature {
        name: decl.name.clone(),
        parameters: copy_synthetic_parameters(&split.remaining),
        return_type: copy_option_type(&decl.return_type),
    };
    let impl_method = MethodSignature {
        name: decl.name.clone(),
        parameters: split.remaining,
        return_type: copy_option_type(&decl.return_type),
    };
    let capability = CapabilityDeclaration {
        visibility: decl.visibility.clone(),
        name: decl.name.clone(),
        generics: copy_generics(&decl.generics),
        where_constraints: copy_texts(&decl.where_constraints),
        method: trait_method,
    };
    let conformance = Conformance {
        generics: copy_generics(&decl.generics),
        capability: decl.name.clone(),
        receiver_type: split.receiver_type,
        where_constraints: copy_texts(&decl.where_constraints),
        method: impl_method,
        body,
    };
    Emission { function: decl, capability, conformance }
}

} // verus!
