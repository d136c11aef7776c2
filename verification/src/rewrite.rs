//! Promoting `impl Trait` to named generic parameters.
//!
//! A type that is written `impl Trait` cannot be named outside the signature
//! that introduces it. So that a trait's impl can name the type of a
//! function's first parameter, every `impl Trait` in that type is replaced by
//! a generic parameter with a made-up name and the same bounds.

use vstd::prelude::*;
use crate::syntax::{
    copy_texts, DeclaredType, FunctionDeclaration, FunctionDeclarationView, GeneratedTypeParameter,
    GeneratedTypeParameterView, GenericParameter, GenericParameterView, Parameter, ParameterView,
    Text, TypeTree,
};
use crate::text::{generated_name, write_generated_name};

verus! {

/// The bounds of every `impl Trait` in `tree`, in the order in which a walk
/// meets them that visits a type before its parts and the parts from left to
/// right. What is written inside the bounds of an `impl Trait` is not walked.
pub open spec fn impl_trait_bounds(tree: TypeTree) -> Seq<Seq<Text>>
    decreases tree, 0nat,
{
    match tree {
        TypeTree::ImplTrait { bounds } => seq![bounds],
        TypeTree::Named { .. } => Seq::empty(),
        TypeTree::Other { parts, .. } => impl_trait_bounds_of(parts),
    }
}

/// The bounds of every `impl Trait` in `trees`, tree after tree.
pub open spec fn impl_trait_bounds_of(trees: Seq<TypeTree>) -> Seq<Seq<Text>>
    decreases trees, 1nat,
{
    if trees.len() == 0 {
        Seq::empty()
    } else {
        impl_trait_bounds_of(trees.drop_last()) + impl_trait_bounds(trees.last())
    }
}

/// How many times `impl Trait` occurs in `tree`.
pub open spec fn impl_trait_count(tree: TypeTree) -> nat {
    impl_trait_bounds(tree).len()
}

/// `tree` with every `impl Trait` replaced by the name of a generic
/// parameter: the one that the walk meets first by the name with index
/// `first`, the next by the name with index `first + 1`, and so on.
pub open spec fn replaced(tree: TypeTree, first: nat) -> TypeTree
    decreases tree, 0nat,
{
    match tree {
        TypeTree::ImplTrait { .. } => TypeTree::Named { name: generated_name(first) },
        TypeTree::Named { .. } => tree,
        TypeTree::Other { form, parts } => TypeTree::Other {
            form,
            parts: replaced_each(parts, first),
        },
    }
}

/// `trees` with every `impl Trait` replaced, the indices running on from one
/// tree to the next.
pub open spec fn replaced_each(trees: Seq<TypeTree>, first: nat) -> Seq<TypeTree>
    decreases trees, 1nat,
{
    if trees.len() == 0 {
        Seq::empty()
    } else {
        let init = trees.drop_last();
        replaced_each(init, first).push(
            replaced(trees.last(), first + impl_trait_bounds_of(init).len()),
        )
    }
}

/// The generic parameters that take the place of `impl Trait` types with the
/// given bounds, named from index `first` on.
pub open spec fn generated(bounds: Seq<Seq<Text>>, first: nat) -> Seq<GeneratedTypeParameterView> {
    Seq::new(
        bounds.len(),
        |k: int| GeneratedTypeParameterView { name: generated_name((first + k) as nat), bounds: bounds[k] },
    )
}

/// The generated parameters as entries of a generic parameter list.
pub open spec fn as_generics(parameters: Seq<GeneratedTypeParameterView>) -> Seq<
    GenericParameterView,
> {
    Seq::new(parameters.len(), |k: int| parameters[k].as_generic())
}

/// The declaration with every `impl Trait` in the type of its first
/// parameter promoted: the type has the names of new generic parameters in
/// their places, numbered from zero, and the generic parameter list ends with
/// those parameters. Nothing else changes, and a declaration whose first
/// parameter has no declared type stays as it is.
pub open spec fn promoted(decl: FunctionDeclarationView) -> FunctionDeclarationView {
    if decl.params.len() > 0 && decl.params[0] is Named {
        let ty = decl.params[0]->ty;
        FunctionDeclarationView {
            generics: decl.generics + as_generics(generated(impl_trait_bounds(ty), 0)),
            params: decl.params.update(
                0,
                ParameterView::Named { name: decl.params[0]->name, ty: replaced(ty, 0) },
            ),
            ..decl
        }
    } else {
        decl
    }
}

/// `replaced_each` keeps the number of trees and replaces in each tree with
/// the index that the trees before it have left.
pub proof fn lemma_replaced_each(trees: Seq<TypeTree>, first: nat)
    ensures
        replaced_each(trees, first).len() == trees.len(),
        forall|j: int|
            0 <= j < trees.len() ==> (#[trigger] replaced_each(trees, first)[j]) == replaced(
                trees[j],
                first + impl_trait_bounds_of(trees.take(j)).len(),
            ),
    decreases trees.len(),
{
    if trees.len() > 0 {
        let init = trees.drop_last();
        lemma_replaced_each(init, first);
        assert(trees.take(trees.len() - 1) =~= init);
        assert forall|j: int| 0 <= j < trees.len() - 1 implies trees.take(j) == init.take(j) by {
            assert(trees.take(j) =~= init.take(j));
        }
    }
}

/// The bounds in the first `i + 1` trees are those in the first `i`, then
/// those in the tree at `i`.
pub proof fn lemma_bounds_of_take(trees: Seq<TypeTree>, i: int)
    requires
        0 <= i < trees.len(),
    ensures
        impl_trait_bounds_of(trees.take(i + 1)) == impl_trait_bounds_of(trees.take(i))
            + impl_trait_bounds(trees[i]),
{
    assert(trees.take(i + 1).drop_last() =~= trees.take(i));
    assert(trees.take(i + 1).last() == trees[i]);
}

/// The parameters generated for two runs of bounds are those for the first
/// run, then those for the second, named from where the first run ended.
pub proof fn lemma_generated_concat(a: Seq<Seq<Text>>, b: Seq<Seq<Text>>, first: nat)
    ensures
        generated(a + b, first) == generated(a, first) + generated(b, first + a.len()),
{
    assert(generated(a + b, first) =~= generated(a, first) + generated(b, first + a.len()));
}

/// After the replacement no `impl Trait` is left.
pub proof fn lemma_replaced_has_none(tree: TypeTree, first: nat)
    ensures
        impl_trait_count(replaced(tree, first)) == 0,
    decreases tree, 0nat,
{
    match tree {
        TypeTree::Other { parts, .. } => {
            lemma_replaced_each_has_none(parts, first);
        },
        _ => {},
    }
}

/// After the replacement in each of them, no tree holds an `impl Trait`.
pub proof fn lemma_replaced_each_has_none(trees: Seq<TypeTree>, first: nat)
    ensures
        impl_trait_bounds_of(replaced_each(trees, first)).len() == 0,
    decreases trees, 1nat,
{
    if trees.len() > 0 {
        let init = trees.drop_last();
        let last = replaced(trees.last(), first + impl_trait_bounds_of(init).len());
        lemma_replaced_each_has_none(init, first);
        lemma_replaced_has_none(trees.last(), first + impl_trait_bounds_of(init).len());
        assert(replaced_each(init, first).push(last).drop_last() =~= replaced_each(init, first));
        assert(replaced_each(init, first).push(last).last() == last);
    }
}

/// A type without `impl Trait` is left as it is.
pub proof fn lemma_replaced_unchanged(tree: TypeTree, first: nat)
    requires
        impl_trait_count(tree) == 0,
    ensures
        replaced(tree, first) == tree,
    decreases tree, 0nat,
{
    match tree {
        TypeTree::Other { parts, .. } => {
            lemma_replaced_each_unchanged(parts, first);
        },
        _ => {},
    }
}

/// Types without `impl Trait` are left as they are.
pub proof fn lemma_replaced_each_unchanged(trees: Seq<TypeTree>, first: nat)
    requires
        impl_trait_bounds_of(trees).len() == 0,
    ensures
        replaced_each(trees, first) == trees,
    decreases trees, 1nat,
{
    if trees.len() > 0 {
        let init = trees.drop_last();
        lemma_replaced_each_unchanged(init, first);
        lemma_replaced_unchanged(trees.last(), first + impl_trait_bounds_of(init).len());
        assert(init.push(trees.last()) =~= trees);
    }
}

/// The type that is nested in `tree` at `path`, where a path lists, from the
/// outside in, which part to step into; `None` if the path leaves the tree.
pub open spec fn subtree(tree: TypeTree, path: Seq<int>) -> Option<TypeTree>
    decreases path.len(),
{
    if path.len() == 0 {
        Some(tree)
    } else {
        match tree {
            TypeTree::Other { parts, .. } => if 0 <= path[0] < parts.len() {
                subtree(parts[path[0]], path.drop_first())
            } else {
                None
            },
            _ => None,
        }
    }
}

/// How many `impl Trait` types the walk of `tree` meets before it comes to
/// the type at `path`.
pub open spec fn preceding(tree: TypeTree, path: Seq<int>) -> nat
    decreases path.len(),
{
    if path.len() == 0 {
        0
    } else {
        match tree {
            TypeTree::Other { parts, .. } => if 0 <= path[0] < parts.len() {
                impl_trait_bounds_of(parts.take(path[0])).len() + preceding(
                    parts[path[0]],
                    path.drop_first(),
                )
            } else {
                0
            },
            _ => 0,
        }
    }
}

/// The bounds met in the tree at `i` are a run of the bounds met in all of
/// `trees`, which begins where the trees before it end.
pub proof fn lemma_bounds_of_part(trees: Seq<TypeTree>, i: int)
    requires
        0 <= i < trees.len(),
    ensures
        ({
            let before = impl_trait_bounds_of(trees.take(i)).len() as int;
            let within = impl_trait_bounds(trees[i]).len() as int;
            &&& before + within <= impl_trait_bounds_of(trees).len()
            &&& impl_trait_bounds_of(trees).subrange(before, before + within) == impl_trait_bounds(
                trees[i],
            )
        }),
    decreases trees.len(),
{
    let init = trees.drop_last();
    let before = impl_trait_bounds_of(trees.take(i)).len() as int;
    let within = impl_trait_bounds(trees[i]).len() as int;
    if i == trees.len() - 1 {
        assert(trees.take(i) =~= init);
        assert(impl_trait_bounds_of(trees).subrange(before, before + within) =~= impl_trait_bounds(
            trees[i],
        ));
    } else {
        lemma_bounds_of_part(init, i);
        assert(init.take(i) =~= trees.take(i));
        assert(impl_trait_bounds_of(trees).subrange(before, before + within)
            =~= impl_trait_bounds_of(init).subrange(before, before + within));
    }
}

/// The bounds met in the type at `path` are a run of the bounds met in all
/// of `tree`, which begins after those that the walk has met before it comes
/// to that type.
pub proof fn lemma_bounds_at_path(tree: TypeTree, path: Seq<int>)
    requires
        subtree(tree, path) is Some,
    ensures
        ({
            let nested = subtree(tree, path)->Some_0;
            let before = preceding(tree, path) as int;
            let within = impl_trait_count(nested) as int;
            &&& before + within <= impl_trait_count(tree)
            &&& impl_trait_bounds(tree).subrange(before, before + within) == impl_trait_bounds(
                nested,
            )
        }),
    decreases path.len(),
{
    let nested = subtree(tree, path)->Some_0;
    let before = preceding(tree, path) as int;
    let within = impl_trait_count(nested) as int;
    if path.len() == 0 {
        assert(impl_trait_bounds(tree).subrange(0, within) =~= impl_trait_bounds(tree));
    } else {
        match tree {
            TypeTree::Other { parts, .. } => {
                let i = path[0];
                let skipped = impl_trait_bounds_of(parts.take(i)).len() as int;
                let part = impl_trait_bounds(parts[i]);
                lemma_bounds_of_part(parts, i);
                lemma_bounds_at_path(parts[i], path.drop_first());
                let inner = preceding(parts[i], path.drop_first()) as int;
                assert(impl_trait_bounds(tree).subrange(before, before + within)
                    =~= impl_trait_bounds(tree).subrange(skipped, skipped + part.len()).subrange(
                    inner,
                    inner + within,
                ));
            },
            _ => {},
        }
    }
}

/// The replacement works in place: what is nested at a path after the
/// replacement is what was nested there before, with the replacement done in
/// it, numbered from where the walk had come to. So a type stays where it is,
/// an `impl Trait` becomes a name and nothing else, and every other type
/// keeps its form and the number of its parts.
pub proof fn lemma_replaced_subtree(tree: TypeTree, first: nat, path: Seq<int>)
    ensures
        subtree(replaced(tree, first), path) == match subtree(tree, path) {
            Some(nested) => Some(replaced(nested, first + preceding(tree, path))),
            None => None,
        },
    decreases path.len(),
{
    if path.len() > 0 {
        match tree {
            TypeTree::Other { parts, .. } => {
                lemma_replaced_each(parts, first);
                if 0 <= path[0] < parts.len() {
                    lemma_replaced_subtree(
                        parts[path[0]],
                        first + impl_trait_bounds_of(parts.take(path[0])).len(),
                        path.drop_first(),
                    );
                }
            },
            _ => {},
        }
    }
}

/// The walk that replaces `impl Trait`, with the generic parameters that it
/// has generated so far.
pub struct ImplTraitReplace(pub Vec<GeneratedTypeParameter>);

impl ImplTraitReplace {
    /// A walk that has generated nothing yet.
    pub fn new() -> (visitor: Self)
        ensures
            visitor.0@ == Seq::<GeneratedTypeParameter>::empty(),
    {
        ImplTraitReplace(Vec::new())
    }

    /// Replaces every `impl Trait` in `node` by the name of a new generic
    /// parameter and records the parameter with the bounds of what it
    /// replaces. The names are numbered by the parameters generated so far,
    /// in the order in which the walk meets the `impl Trait` types: `node`
    /// before its parts, the parts from left to right.
    pub fn visit_type_mut(&mut self, node: &mut DeclaredType)
        ensures
            final(node)@ == replaced(old(node)@, old(self).0@.len()),
            final(self).0.deep_view() == old(self).0.deep_view() + generated(
                impl_trait_bounds(old(node)@),
                old(self).0@.len(),
            ),
        decreases *old(node),
    {
        let ghost first = self.0@.len();
        let ghost before = self.0.deep_view();
        match node {
            DeclaredType::ImplTrait { bounds } => {
                let name = write_generated_name(self.0.len());
                let parameter = GeneratedTypeParameter {
                    name: name.clone(),
                    bounds: copy_texts(bounds),
                };
                self.0.push(parameter);
                assert(self.0.deep_view() =~= before + generated(
                    impl_trait_bounds(old(node)@),
                    first,
                ));
                *node = DeclaredType::Named { name };
            },
            DeclaredType::Named { .. } => {
                assert(self.0.deep_view() =~= before + generated(
                    impl_trait_bounds(old(node)@),
                    first,
                ));
            },
            DeclaredType::Other { parts, .. } => {
                let ghost initial = parts@;
                let ghost trees = DeclaredType::trees(initial);
                proof {
                    DeclaredType::lemma_trees(initial);
                }
                let mut i: usize = 0;
                while i < parts.len()
                    invariant
                        i <= parts.len(),
                        parts@.len() == initial.len(),
                        trees == DeclaredType::trees(initial),
                        trees.len() == initial.len(),
                        forall|j: int| 0 <= j < initial.len() ==> trees[j] == (#[trigger] initial[j])@,
                        forall|j: int|
                            0 <= j < i ==> (#[trigger] parts@[j])@ == replaced(
                                trees[j],
                                first + impl_trait_bounds_of(trees.take(j)).len(),
                            ),
                        forall|j: int| i <= j < parts@.len() ==> parts@[j] == initial[j],
                        self.0.deep_view() == before + generated(
                            impl_trait_bounds_of(trees.take(i as int)),
                            first,
                        ),
                        self.0@.len() == first + impl_trait_bounds_of(trees.take(i as int)).len(),
                        *old(node) is Other,
                        old(node)->parts@ == initial,
                    decreases parts.len() - i,
                {
                    let ghost seen = impl_trait_bounds_of(trees.take(i as int));
                    let ghost here = impl_trait_bounds(trees[i as int]);
                    let ghost entry = parts@;
                    proof {
                        lemma_bounds_of_take(trees, i as int);
                        lemma_generated_concat(seen, here, first);
                        assert(parts@[i as int] == initial[i as int]);
                        vstd::std_specs::vec::axiom_vec_index_decreases(old(node)->parts, i as int);
                    }
                    self.visit_type_mut(&mut parts[i]);
                    proof {
                        assert(parts@ == entry.update(i as int, parts@[i as int]));
                        assert(self.0.deep_view() =~= before + generated(seen + here, first));
                        assert forall|j: int| 0 <= j < i + 1 implies (#[trigger] parts@[j])@
                            == replaced(
                            trees[j],
                            first + impl_trait_bounds_of(trees.take(j)).len(),
                        ) by {
                            if j < i {
                                assert(parts@[j] == entry[j]);
                            }
                        }
                    }
                    i += 1;
                }
                proof {
                    assert(trees.take(trees.len() as int) =~= trees);
                    lemma_replaced_each(trees, first);
                    DeclaredType::lemma_trees(parts@);
                    assert(DeclaredType::trees(parts@) =~= replaced_each(trees, first));
                }
            },
        }
    }
}

/// Appends the generated parameters to a generic parameter list.
pub fn append_generated(
    generics: &mut Vec<GenericParameter>,
    parameters: Vec<GeneratedTypeParameter>,
)
    ensures
        final(generics).deep_view() == old(generics).deep_view() + as_generics(
            parameters.deep_view(),
        ),
{
    let ghost before = generics.deep_view();
    let ghost added = parameters.deep_view();
    for parameter in it: parameters.into_iter()
        invariant
            it.seq() == parameters@,
            added == parameters.deep_view(),
            generics.deep_view() == before + as_generics(added.take(it.index() as int)),
    {
        let ghost k = it.index() as int;
        let ghost prior = generics.deep_view();
        assert(parameter == parameters@[k]);
        assert(added[k] == parameter@);
        generics.push(parameter.into_generic());
        assert(generics.deep_view() =~= prior.push(added[k].as_generic()));
        assert(as_generics(added.take(k + 1)) =~= as_generics(added.take(k)).push(
            added[k].as_generic(),
        ));
        assert(generics.deep_view() =~= before + as_generics(added.take(k + 1)));
    }
    assert(added.take(added.len() as int) =~= added);
}

/// Promotes every `impl Trait` in the type of the first parameter of `decl`
/// to a generic parameter of `decl`.
pub fn promote_impl_traits(decl: &mut FunctionDeclaration)
    ensures
        final(decl)@ == promoted(old(decl)@),
{
    let mut visitor = ImplTraitReplace::new();
    if decl.params.len() > 0 {
        match &mut decl.params[0] {
            Parameter::Named { ty, .. } => {
                visitor.visit_type_mut(ty);
            },
            Parameter::ImplicitSelf => {},
        }
    }
    let ImplTraitReplace(parameters) = visitor;
    proof {
        if old(decl).params@.len() > 0 && old(decl).params@[0] is Named {
            assert(parameters.deep_view() =~= generated(
                impl_trait_bounds(old(decl)@.params[0]->ty),
                0,
            ));
            assert(decl@.params =~= promoted(old(decl)@).params);
        } else {
            assert(parameters.deep_view() =~= Seq::empty());
            assert(decl@.params =~= old(decl)@.params);
        }
    }
    append_generated(&mut decl.generics, parameters);
    proof {
        if !(old(decl).params@.len() > 0 && old(decl).params@[0] is Named) {
            assert(decl@.generics =~= old(decl)@.generics);
        }
    }
}

} // verus!
