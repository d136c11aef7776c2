//! Checking the shape of a declaration and splitting its parameter list into
//! the parameter that the method is called on and the rest.

use vstd::prelude::*;
use crate::error::{missing_parameter, result_view, unexpected_receiver, Error, ErrorView};
use crate::syntax::{
    DeclaredType, FunctionDeclaration, FunctionDeclarationView, Parameter, ParameterView, Text,
    TypeTree,
};
use crate::text::{synthetic_name, write_synthetic_name};

verus! {

/// What the check of a declaration's shape gives: an error if the
/// declaration has no parameter, and nothing otherwise.
pub open spec fn validated(decl: FunctionDeclarationView) -> Result<(), ErrorView> {
    if decl.params.len() == 0 {
        Err(missing_parameter())
    } else {
        Ok(())
    }
}

/// Checks that `decl` has at least one parameter.
pub fn validate(decl: &FunctionDeclaration) -> (result: Result<(), Error>)
    ensures
        result_view(result) == validated(decl@),
{
    if decl.params.len() == 0 {
        Err(Error::missing_parameter())
    } else {
        Ok(())
    }
}

/// The view of a [`SyntheticParameter`].
pub struct SyntheticParameterView {
    pub name: Text,
    pub ty: TypeTree,
}

/// A parameter of the generated method: a name made up for it, and the
/// declared type of the function's parameter that it stands for.
#[derive(Debug, PartialEq, Eq)]
pub struct SyntheticParameter {
    pub name: String,
    pub ty: DeclaredType,
}

impl View for SyntheticParameter {
    type V = SyntheticParameterView;

    open spec fn view(&self) -> SyntheticParameterView {
        SyntheticParameterView { name: self.name@, ty: self.ty@ }
    }
}

impl DeepView for SyntheticParameter {
    type V = SyntheticParameterView;

    open spec fn deep_view(&self) -> SyntheticParameterView {
        self.view()
    }
}

impl Clone for SyntheticParameter {
    fn clone(&self) -> (copy: Self)
        ensures
            copy@ == self@,
    {
        SyntheticParameter { name: self.name.clone(), ty: self.ty.clone() }
    }
}

/// Copies a list of synthetic parameters.
pub fn copy_synthetic_parameters(parameters: &Vec<SyntheticParameter>) -> (copy: Vec<
    SyntheticParameter,
>)
    ensures
        copy.deep_view() == parameters.deep_view(),
{
    let mut copy: Vec<SyntheticParameter> = Vec::new();
    let mut i: usize = 0;
    while i < parameters.len()
        invariant
            i <= parameters.len(),
            copy.len() == i,
            forall|j: int| 0 <= j < i ==> copy[j]@ == parameters[j]@,
        decreases parameters.len() - i,
    {
        copy.push(parameters[i].clone());
        i += 1;
    }
    assert(copy.deep_view() =~= parameters.deep_view());
    copy
}

/// The view of a [`SplitSignature`].
pub struct SplitSignatureView {
    pub receiver_type: TypeTree,
    pub remaining: Seq<SyntheticParameterView>,
}

/// A parameter list, split: the declared type of the first parameter, which
/// the method is called on, and the parameters after it with the names that
/// the method gives them.
#[derive(Debug, PartialEq, Eq)]
pub struct SplitSignature {
    pub receiver_type: DeclaredType,
    pub remaining: Vec<SyntheticParameter>,
}

impl View for SplitSignature {
    type V = SplitSignatureView;

    open spec fn view(&self) -> SplitSignatureView {
        SplitSignatureView {
            receiver_type: self.receiver_type@,
            remaining: self.remaining.deep_view(),
        }
    }
}

impl DeepView for SplitSignature {
    type V = SplitSignatureView;

    open spec fn deep_view(&self) -> SplitSignatureView {
        self.view()
    }
}

/// Whether some parameter is `self`.
pub open spec fn has_receiver(params: Seq<ParameterView>) -> bool {
    exists|i: int| 0 <= i < params.len() && params[i] is ImplicitSelf
}

/// Whether the parameter at `index` is `self` and none before it is.
pub open spec fn is_first_receiver(params: Seq<ParameterView>, index: int) -> bool {
    &&& 0 <= index < params.len()
    &&& params[index] is ImplicitSelf
    &&& forall|j: int| 0 <= j < index ==> !(params[j] is ImplicitSelf)
}

/// The index of the first parameter that is `self`, if there is one.
pub open spec fn first_receiver(params: Seq<ParameterView>) -> int {
    choose|index: int| is_first_receiver(params, index)
}

/// The parameters of the generated method for a parameter list without
/// `self`: one for each parameter after the first, in order, named `x1`,
/// `x2`, and so on, with that parameter's declared type.
pub open spec fn synthetic_parameters(params: Seq<ParameterView>) -> Seq<SyntheticParameterView> {
    Seq::new(
        (params.len() - 1) as nat,
        |k: int| SyntheticParameterView { name: synthetic_name((k + 1) as nat), ty: params[k + 1]->ty },
    )
}

/// What splitting the parameter list of `decl` gives: an error at the first
/// parameter that is `self`, if there is one, and otherwise the declared type
/// of the first parameter and the parameters of the generated method.
pub open spec fn split(decl: FunctionDeclarationView) -> Result<SplitSignatureView, ErrorView>
    recommends
        decl.params.len() > 0,
{
    if has_receiver(decl.params) {
        Err(unexpected_receiver(first_receiver(decl.params) as usize))
    } else {
        Ok(
            SplitSignatureView {
                receiver_type: decl.params[0]->ty,
                remaining: synthetic_parameters(decl.params),
            },
        )
    }
}

/// Only one index is that of the first `self`.
pub proof fn lemma_first_receiver(params: Seq<ParameterView>, index: int)
    requires
        is_first_receiver(params, index),
    ensures
        has_receiver(params),
        first_receiver(params) == index,
{
    let chosen = first_receiver(params);
    assert(is_first_receiver(params, chosen));
    if chosen < index {
        assert(!(params[chosen] is ImplicitSelf));
    }
    if index < chosen {
        assert(!(params[index] is ImplicitSelf));
    }
}

/// Splits the parameter list of `decl`, which has a first parameter.
pub fn split_signature(decl: &FunctionDeclaration) -> (result: Result<SplitSignature, Error>)
    requires
        decl.params@.len() > 0,
    ensures
        result_view(result) == split(decl@),
{
    let ghost params = decl@.params;
    let receiver_type = match &decl.params[0] {
        Parameter::Named { ty, .. } => ty.clone(),
        Parameter::ImplicitSelf => {
            proof {
                lemma_first_receiver(params, 0);
            }
            return Err(Error::unexpected_receiver(0));
        },
    };
    let mut remaining: Vec<SyntheticParameter> = Vec::new();
    let mut i: usize = 1;
    while i < decl.params.len()
        invariant
            1 <= i <= decl.params.len(),
            params == decl@.params,
            remaining.len() == i - 1,
            forall|j: int| 0 <= j < i ==> !((#[trigger] params[j]) is ImplicitSelf),
            forall|k: int|
                0 <= k < i - 1 ==> (#[trigger] remaining[k])@ == synthetic_parameters(params)[k],
        decreases decl.params.len() - i,
    {
        match &decl.params[i] {
            Parameter::Named { ty, .. } => {
                remaining.push(SyntheticParameter { name: write_synthetic_name(i), ty: ty.clone() });
            },
            Parameter::ImplicitSelf => {
                proof {
                    lemma_first_receiver(params, i as int);
                }
                return Err(Error::unexpected_receiver(i));
            },
        }
        i += 1;
    }
    let split = SplitSignature { receiver_type, remaining };
    proof {
        assert(!has_receiver(params));
        assert(split@.remaining =~= synthetic_parameters(params));
    }
    Ok(split)
}

} // verus!
