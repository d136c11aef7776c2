//! What holds of every expansion, proved from the definitions that the
//! contracts of the library are stated with.

use vstd::prelude::*;
use crate::emit::{EmissionResult, EmissionView, ForwardingCallView};
use crate::error::{
    missing_parameter, result_view, unexpected_attributes, unexpected_receiver, unreadable_item,
    ErrorView,
};
use crate::expansion;
use crate::rewrite::{
    generated, impl_trait_bounds, impl_trait_count, lemma_bounds_at_path, lemma_replaced_each,
    lemma_replaced_has_none, lemma_replaced_subtree, lemma_replaced_unchanged, preceding, promoted,
    replaced, subtree,
};
use crate::signature::{
    first_receiver, has_receiver, is_first_receiver, lemma_first_receiver, synthetic_parameters,
};
use crate::syntax::{
    FunctionDeclaration, FunctionDeclarationView, GeneratedTypeParameterView, GenericParameterView,
    Text, TypeTree,
};
use crate::text::{
    generated_name, lemma_generated_name_injective, lemma_synthetic_name_injective, synthetic_name,
};

verus! {

/// When an expansion succeeds and how it fails. It succeeds where the
/// attribute has no arguments and the item is a function declaration with at
/// least one parameter, none of them `self`. Otherwise the first of these
/// that does not hold decides the error, and with `self` among the
/// parameters the error points at the first of them.
pub proof fn lemma_outcome(attr: Seq<Text>, item: Result<FunctionDeclarationView, Text>)
    ensures
        expansion(attr, item) is Ok <==> attr.len() == 0 && item is Ok && item->Ok_0.params.len()
            > 0 && !has_receiver(item->Ok_0.params),
        attr.len() > 0 ==> expansion(attr, item) == Err::<EmissionView, ErrorView>(
            unexpected_attributes(),
        ),
        attr.len() == 0 && item is Err ==> expansion(attr, item) == Err::<EmissionView, ErrorView>(
            unreadable_item(item->Err_0),
        ),
        attr.len() == 0 && item is Ok && item->Ok_0.params.len() == 0 ==> expansion(attr, item)
            == Err::<EmissionView, ErrorView>(missing_parameter()),
        forall|index: int|
            attr.len() == 0 && item is Ok && #[trigger] is_first_receiver(item->Ok_0.params, index)
                ==> expansion(attr, item) == Err::<EmissionView, ErrorView>(
                unexpected_receiver(index as usize),
            ),
{
    if item is Ok {
        let decl = item->Ok_0;
        lemma_promoted_parameters(decl);
        assert forall|index: int| is_first_receiver(decl.params, index) implies has_receiver(
            promoted(decl).params,
        ) && first_receiver(promoted(decl).params) == index by {
            assert forall|j: int| 0 <= j < index implies !(promoted(decl).params[j] is ImplicitSelf) by {
                assert(!(decl.params[j] is ImplicitSelf));
            }
            lemma_first_receiver(promoted(decl).params, index);
        }
    }
}

/// The units of every expansion belong together, and the type of the
/// function's first parameter holds no `impl Trait`.
pub proof fn lemma_units_cohere(attr: Seq<Text>, item: Result<FunctionDeclarationView, Text>)
    requires
        expansion(attr, item) is Ok,
    ensures
        expansion(attr, item)->Ok_0.coherent(),
        impl_trait_count(expansion(attr, item)->Ok_0.function.params[0]->ty) == 0,
        expansion(attr, item)->Ok_0.function == promoted(item->Ok_0),
{
    let decl = item->Ok_0;
    lemma_outcome(attr, item);
    lemma_promoted_parameters(decl);
    lemma_replaced_has_none(decl.params[0]->ty, 0);
    let units = expansion(attr, item)->Ok_0;
    assert(!(decl.params[0] is ImplicitSelf));
    assert forall|k: int| 0 <= k < units.capability.method.parameters.len() implies {
        &&& units.function.params[k + 1] is Named
        &&& (#[trigger] units.capability.method.parameters[k]).ty == units.function.params[k + 1]->ty
    } by {
        assert(!(decl.params[k + 1] is ImplicitSelf));
    }
}

/// Promotion changes no parameter but the first, and makes no parameter
/// `self` that was not.
pub proof fn lemma_promoted_parameters(decl: FunctionDeclarationView)
    ensures
        promoted(decl).params.len() == decl.params.len(),
        forall|i: int| 1 <= i < decl.params.len() ==> promoted(decl).params[i] == decl.params[i],
        decl.params.len() > 0 ==> (promoted(decl).params[0] is ImplicitSelf
            <==> decl.params[0] is ImplicitSelf),
        has_receiver(promoted(decl).params) <==> has_receiver(decl.params),
{
    let after = promoted(decl).params;
    if has_receiver(decl.params) {
        let i = choose|i: int| 0 <= i < decl.params.len() && decl.params[i] is ImplicitSelf;
        assert(after[i] is ImplicitSelf);
    }
    if has_receiver(after) {
        let i = choose|i: int| 0 <= i < after.len() && after[i] is ImplicitSelf;
        assert(decl.params[i] is ImplicitSelf);
    }
}

/// A function with one parameter whose type holds no `impl Trait` comes out
/// as it went in; the trait and the impl have the function's own generic
/// parameters and no others; the method has no parameter besides `self`, and
/// its body calls the function with `self` alone.
pub proof fn lemma_single_plain_parameter(decl: FunctionDeclarationView)
    requires
        decl.params.len() == 1,
        decl.params[0] is Named,
        impl_trait_count(decl.params[0]->ty) == 0,
    ensures
        expansion(Seq::empty(), Ok(decl)) matches Ok(units) && {
            &&& units.function == decl
            &&& units.capability.generics == decl.generics
            &&& units.conformance.generics == decl.generics
            &&& units.capability.method.parameters.len() == 0
            &&& units.conformance.method.parameters.len() == 0
            &&& units.conformance.body == (ForwardingCallView {
                function: decl.name,
                arguments: Seq::empty(),
            })
        },
{
    let ty = decl.params[0]->ty;
    lemma_replaced_unchanged(ty, 0);
    lemma_promoted_parameters(decl);
    assert(impl_trait_bounds(ty) =~= Seq::empty());
    assert(promoted(decl).generics =~= decl.generics);
    assert(promoted(decl).params =~= decl.params);
    assert(promoted(decl) == decl);
    assert(!has_receiver(decl.params));
    let units = expansion(Seq::empty(), Ok(decl))->Ok_0;
    assert(units.conformance.body.arguments =~= Seq::empty());
}

/// A function with a first parameter and `n` parameters after it, none of
/// them `self`, gives a method with exactly `n` parameters besides `self`,
/// the same in the trait and in the impl. The parameter at position `k` is
/// named `x` and `k` in decimal, positions counted from one, so that the
/// names differ from one another, and it has the declared type of the
/// function's parameter at that position. The method's body passes these
/// names on in the same order.
pub proof fn lemma_method_parameters(decl: FunctionDeclarationView)
    requires
        decl.params.len() > 0,
        !has_receiver(decl.params),
    ensures
        expansion(Seq::empty(), Ok(decl)) matches Ok(units) && {
            &&& units.capability.method.parameters.len() == decl.params.len() - 1
            &&& units.conformance.method.parameters == units.capability.method.parameters
            &&& units.conformance.body.arguments.len() == decl.params.len() - 1
            &&& forall|k: int|
                #![trigger units.capability.method.parameters[k]]
                #![trigger units.conformance.body.arguments[k]]
                0 <= k < decl.params.len() - 1 ==> {
                    &&& units.capability.method.parameters[k].name == synthetic_name((k + 1) as nat)
                    &&& units.capability.method.parameters[k].ty == decl.params[k + 1]->ty
                    &&& units.conformance.body.arguments[k] == synthetic_name((k + 1) as nat)
                }
            &&& forall|j: int, k: int|
                0 <= j < k < decl.params.len() - 1
                    ==> units.capability.method.parameters[j].name
                    != units.capability.method.parameters[k].name
        },
{
    lemma_promoted_parameters(decl);
    let units = expansion(Seq::empty(), Ok(decl))->Ok_0;
    let parameters = units.capability.method.parameters;
    assert(parameters == synthetic_parameters(promoted(decl).params));
    assert forall|j: int, k: int| 0 <= j < k < decl.params.len() - 1 implies parameters[j].name
        != parameters[k].name by {
        if parameters[j].name == parameters[k].name {
            lemma_synthetic_name_injective((j + 1) as nat, (k + 1) as nat);
        }
    }
}

/// Where the type of the first parameter holds `impl Trait` `k` times, the
/// promoted declaration has the generic parameters that it had and then `k`
/// more. The one at position `i` among the new ones is a type parameter
/// without a default, named by `i`, with the bounds of the `impl Trait` that
/// the walk of the type meets at position `i`; the new names differ from one
/// another. The type of the first parameter then holds no `impl Trait`.
pub proof fn lemma_promotion(decl: FunctionDeclarationView)
    requires
        decl.params.len() > 0,
        decl.params[0] is Named,
    ensures
        ({
            let ty = decl.params[0]->ty;
            let count = impl_trait_count(ty);
            let after = promoted(decl);
            &&& after.generics.len() == decl.generics.len() + count
            &&& after.generics.take(decl.generics.len() as int) == decl.generics
            &&& forall|i: int|
                0 <= i < count ==> #[trigger] after.generics[decl.generics.len() + i] == (
                GenericParameterView::Type {
                    name: generated_name(i as nat),
                    bounds: impl_trait_bounds(ty)[i],
                    default: None,
                })
            &&& forall|i: nat, j: nat|
                i < j < count ==> #[trigger] generated_name(i) != #[trigger] generated_name(j)
            &&& after.params[0] is Named
            &&& after.params[0]->name == decl.params[0]->name
            &&& after.params[0]->ty == replaced(ty, 0)
            &&& impl_trait_count(after.params[0]->ty) == 0
        }),
{
    let ty = decl.params[0]->ty;
    let count = impl_trait_count(ty);
    let after = promoted(decl);
    lemma_replaced_has_none(ty, 0);
    assert(after.generics.take(decl.generics.len() as int) =~= decl.generics);
    assert forall|i: nat, j: nat| i < j < count implies #[trigger] generated_name(i)
        != #[trigger] generated_name(j) by {
        if generated_name(i) == generated_name(j) {
            lemma_generated_name_injective(i, j);
        }
    }
}

/// An `impl Trait` that is nested in a type at `path` is replaced there, and
/// by nothing but a name: the name of the generic parameter whose index is
/// the number of `impl Trait` types that the walk has met before, and that
/// parameter is generated with the bounds of this `impl Trait`.
pub proof fn lemma_impl_trait_at_path(tree: TypeTree, first: nat, path: Seq<int>)
    requires
        subtree(tree, path) is Some,
        subtree(tree, path)->Some_0 is ImplTrait,
    ensures
        ({
            let before = preceding(tree, path);
            let parameter = GeneratedTypeParameterView {
                name: generated_name(first + before),
                bounds: subtree(tree, path)->Some_0->bounds,
            };
            &&& before < impl_trait_count(tree)
            &&& subtree(replaced(tree, first), path) == Some(
                TypeTree::Named { name: generated_name(first + before) },
            )
            &&& generated(impl_trait_bounds(tree), first)[before as int] == parameter
        }),
{
    let before = preceding(tree, path) as int;
    lemma_replaced_subtree(tree, first, path);
    lemma_bounds_at_path(tree, path);
    assert(impl_trait_bounds(tree).subrange(before, before + 1)[0] == impl_trait_bounds(tree)[before]);
}

/// A type that is nested at `path` and holds no `impl Trait` is found at the
/// same path after the replacement, as it was.
pub proof fn lemma_plain_type_at_path(tree: TypeTree, first: nat, path: Seq<int>)
    requires
        subtree(tree, path) is Some,
        impl_trait_count(subtree(tree, path)->Some_0) == 0,
    ensures
        subtree(replaced(tree, first), path) == subtree(tree, path),
{
    lemma_replaced_subtree(tree, first, path);
    lemma_replaced_unchanged(subtree(tree, path)->Some_0, first + preceding(tree, path));
}

/// A type that is nested at `path` and is neither `impl Trait` nor a bare
/// name keeps its form and the number of its parts.
pub proof fn lemma_form_at_path(tree: TypeTree, first: nat, path: Seq<int>)
    requires
        subtree(tree, path) is Some,
        subtree(tree, path)->Some_0 is Other,
    ensures
        subtree(replaced(tree, first), path) matches Some(TypeTree::Other { form, parts }) && {
            &&& form == subtree(tree, path)->Some_0->form
            &&& parts.len() == subtree(tree, path)->Some_0->parts.len()
        },
{
    lemma_replaced_subtree(tree, first, path);
    lemma_replaced_each(subtree(tree, path)->Some_0->parts, first + preceding(tree, path));
}

/// The expansion is a function of what the input says: two runs on inputs
/// with the same views, each with the result that [`crate::as_method`]
/// promises, give results with the same views.
pub proof fn lemma_deterministic(
    attr_a: Vec<String>,
    item_a: Result<FunctionDeclaration, String>,
    result_a: EmissionResult,
    attr_b: Vec<String>,
    item_b: Result<FunctionDeclaration, String>,
    result_b: EmissionResult,
)
    requires
        attr_a.deep_view() == attr_b.deep_view(),
        result_view(item_a) == result_view(item_b),
        result_view(result_a) == expansion(attr_a.deep_view(), result_view(item_a)),
        result_view(result_b) == expansion(attr_b.deep_view(), result_view(item_b)),
    ensures
        result_view(result_a) == result_view(result_b),
{
}

} // verus!
