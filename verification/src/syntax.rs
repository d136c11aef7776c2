//! The syntax that the library reads and writes: types, parameters, generic
//! parameters and function declarations, each with its mathematical view.
//!
//! Source text that the library only carries along (a bound, a where
//! constraint, a body) is held as a `String`, and contracts speak of it as a
//! sequence of characters.

use vstd::prelude::*;

verus! {

/// A piece of source text, as contracts see it.
pub type Text = Seq<char>;

/// The view of an optional piece of text.
pub open spec fn option_text(text: Option<String>) -> Option<Text> {
    match text {
        Some(t) => Some(t@),
        None => None,
    }
}

/// Copies a list of texts.
pub fn copy_texts(texts: &Vec<String>) -> (copy: Vec<String>)
    ensures
        copy.deep_view() == texts.deep_view(),
{
    let mut copy: Vec<String> = Vec::new();
    let mut i: usize = 0;
    while i < texts.len()
        invariant
            i <= texts.len(),
            copy.len() == i,
            forall|j: int| 0 <= j < i ==> copy[j]@ == texts[j]@,
        decreases texts.len() - i,
    {
        copy.push(texts[i].clone());
        i += 1;
    }
    assert(copy.deep_view() =~= texts.deep_view());
    copy
}

/// Copies an optional text.
pub fn copy_option_text(text: &Option<String>) -> (copy: Option<String>)
    ensures
        option_text(copy) == option_text(*text),
{
    match text {
        Some(t) => Some(t.clone()),
        None => None,
    }
}

/// The view of a [`DeclaredType`]: a type expression as a tree.
pub enum TypeTree {
    /// `impl B0 + B1 + ..`: some unnamed type that satisfies the bounds.
    ImplTrait { bounds: Seq<Text> },
    /// A type that is written as one bare name.
    Named { name: Text },
    /// Any other type syntax: what is written around the nested types, and the
    /// nested types in the order in which they are written.
    Other { form: Text, parts: Seq<TypeTree> },
}

/// A type as it is written in a declaration.
///
/// Only `impl Trait` is told apart; a bare name is what takes its place, and
/// every other form is kept as it is written, with the types nested in it as
/// its parts.
#[derive(Debug, PartialEq, Eq)]
pub enum DeclaredType {
    /// `impl B0 + B1 + ..`, with the text of each bound.
    ImplTrait { bounds: Vec<String> },
    /// A type that is written as one bare name, such as `T`.
    Named { name: String },
    /// Any other type syntax. `parts` holds the types that are nested in it
    /// directly, in the order in which they are written, and `form` is the
    /// syntax around them, with a mark of the caller's choice where each part
    /// stands. `&mut Vec<T>` has one part, `Vec<T>`, which in turn has the
    /// part `T`; with `_` as the mark their forms are `&mut _` and `Vec<_>`.
    /// The library carries a form along and never looks into it.
    Other { form: String, parts: Vec<DeclaredType> },
}

impl View for DeclaredType {
    type V = TypeTree;

    open spec fn view(&self) -> TypeTree {
        self.tree()
    }
}

impl DeepView for DeclaredType {
    type V = TypeTree;

    open spec fn deep_view(&self) -> TypeTree {
        self.view()
    }
}

impl DeclaredType {
    /// The type as a tree.
    pub open spec fn tree(&self) -> TypeTree
        decreases self, 0nat,
    {
        match self {
            DeclaredType::ImplTrait { bounds } => TypeTree::ImplTrait { bounds: bounds.deep_view() },
            DeclaredType::Named { name } => TypeTree::Named { name: name@ },
            DeclaredType::Other { form, parts } => TypeTree::Other {
                form: form@,
                parts: Self::trees(parts@),
            },
        }
    }

    /// The trees of `types`, in order.
    pub open spec fn trees(types: Seq<DeclaredType>) -> Seq<TypeTree>
        decreases types, 1nat,
    {
        if types.len() == 0 {
            Seq::empty()
        } else {
            Self::trees(types.drop_last()).push(types.last().tree())
        }
    }

    /// `trees` views each type in its place.
    pub proof fn lemma_trees(types: Seq<DeclaredType>)
        ensures
            Self::trees(types).len() == types.len(),
            forall|i: int| 0 <= i < types.len() ==> (#[trigger] Self::trees(types)[i]) == types[i]@,
        decreases types.len(),
    {
        if types.len() > 0 {
            Self::lemma_trees(types.drop_last());
        }
    }

    /// The view of a composite type lists the views of its parts.
    pub proof fn lemma_view_parts(self)
        requires
            self is Other,
        ensures
            self@ == (TypeTree::Other {
                form: self->form@,
                parts: self->parts.deep_view(),
            }),
    {
        Self::lemma_trees(self->parts@);
        assert(self@->parts =~= self->parts.deep_view());
    }
}

impl Clone for DeclaredType {
    fn clone(&self) -> (copy: Self)
        ensures
            copy@ == self@,
        decreases self,
    {
        match self {
            DeclaredType::ImplTrait { bounds } => DeclaredType::ImplTrait {
                bounds: copy_texts(bounds),
            },
            DeclaredType::Named { name } => DeclaredType::Named { name: name.clone() },
            DeclaredType::Other { form, parts } => {
                let mut copies: Vec<DeclaredType> = Vec::new();
                let mut i: usize = 0;
                while i < parts.len()
                    invariant
                        i <= parts.len(),
                        copies.len() == i,
                        forall|j: int| 0 <= j < i ==> copies[j]@ == parts[j]@,
                        self is Other,
                        *parts == self->parts,
                    decreases parts.len() - i,
                {
                    copies.push(parts[i].clone());
                    i += 1;
                }
                let copy = DeclaredType::Other { form: form.clone(), parts: copies };
                proof {
                    self.lemma_view_parts();
                    copy.lemma_view_parts();
                    assert(copy->parts.deep_view() =~= self->parts.deep_view());
                }
                copy
            },
        }
    }
}

/// Copies an optional type.
pub fn copy_option_type(ty: &Option<DeclaredType>) -> (copy: Option<DeclaredType>)
    ensures
        copy.deep_view() == ty.deep_view(),
{
    match ty {
        Some(t) => Some(t.clone()),
        None => None,
    }
}

/// The view of a [`Parameter`].
pub enum ParameterView {
    ImplicitSelf,
    Named { name: Text, ty: TypeTree },
}

/// A parameter of a function declaration.
#[derive(Debug, PartialEq, Eq)]
pub enum Parameter {
    /// `self` in any of its forms, which has no declared type of its own.
    ImplicitSelf,
    /// A parameter that is written with its type: `name: ty`.
    Named { name: String, ty: DeclaredType },
}

impl View for Parameter {
    type V = ParameterView;

    open spec fn view(&self) -> ParameterView {
        match self {
            Parameter::ImplicitSelf => ParameterView::ImplicitSelf,
            Parameter::Named { name, ty } => ParameterView::Named { name: name@, ty: ty@ },
        }
    }
}

impl DeepView for Parameter {
    type V = ParameterView;

    open spec fn deep_view(&self) -> ParameterView {
        self.view()
    }
}

impl Clone for Parameter {
    fn clone(&self) -> (copy: Self)
        ensures
            copy@ == self@,
    {
        match self {
            Parameter::ImplicitSelf => Parameter::ImplicitSelf,
            Parameter::Named { name, ty } => Parameter::Named { name: name.clone(), ty: ty.clone() },
        }
    }
}

/// The view of a [`GenericParameter`].
pub enum GenericParameterView {
    Lifetime { name: Text, bounds: Seq<Text> },
    Type { name: Text, bounds: Seq<Text>, default: Option<Text> },
    Const { name: Text, ty: Text, default: Option<Text> },
}

/// A generic parameter of a declaration.
#[derive(Debug, PartialEq, Eq)]
pub enum GenericParameter {
    /// `'name: bounds`.
    Lifetime { name: String, bounds: Vec<String> },
    /// `name: bounds = default`.
    Type { name: String, bounds: Vec<String>, default: Option<String> },
    /// `const name: ty = default`.
    Const { name: String, ty: String, default: Option<String> },
}

impl View for GenericParameter {
    type V = GenericParameterView;

    open spec fn view(&self) -> GenericParameterView {
        match self {
            GenericParameter::Lifetime { name, bounds } => GenericParameterView::Lifetime {
                name: name@,
                bounds: bounds.deep_view(),
            },
            GenericParameter::Type { name, bounds, default } => GenericParameterView::Type {
                name: name@,
                bounds: bounds.deep_view(),
                default: option_text(*default),
            },
            GenericParameter::Const { name, ty, default } => GenericParameterView::Const {
                name: name@,
                ty: ty@,
                default: option_text(*default),
            },
        }
    }
}

impl DeepView for GenericParameter {
    type V = GenericParameterView;

    open spec fn deep_view(&self) -> GenericParameterView {
        self.view()
    }
}

impl Clone for GenericParameter {
    fn clone(&self) -> (copy: Self)
        ensures
            copy@ == self@,
    {
        match self {
            GenericParameter::Lifetime { name, bounds } => GenericParameter::Lifetime {
                name: name.clone(),
                bounds: copy_texts(bounds),
            },
            GenericParameter::Type { name, bounds, default } => GenericParameter::Type {
                name: name.clone(),
                bounds: copy_texts(bounds),
                default: copy_option_text(default),
            },
            GenericParameter::Const { name, ty, default } => GenericParameter::Const {
                name: name.clone(),
                ty: ty.clone(),
                default: copy_option_text(default),
            },
        }
    }
}

/// Copies a list of generic parameters.
pub fn copy_generics(generics: &Vec<GenericParameter>) -> (copy: Vec<GenericParameter>)
    ensures
        copy.deep_view() == generics.deep_view(),
{
    let mut copy: Vec<GenericParameter> = Vec::new();
    let mut i: usize = 0;
    while i < generics.len()
        invariant
            i <= generics.len(),
            copy.len() == i,
            forall|j: int| 0 <= j < i ==> copy[j]@ == generics[j]@,
        decreases generics.len() - i,
    {
        copy.push(generics[i].clone());
        i += 1;
    }
    assert(copy.deep_view() =~= generics.deep_view());
    copy
}

/// The view of a [`GeneratedTypeParameter`].
pub struct GeneratedTypeParameterView {
    pub name: Text,
    pub bounds: Seq<Text>,
}

impl GeneratedTypeParameterView {
    /// The parameter as an entry of a generic parameter list: a type
    /// parameter with these bounds and no default.
    pub open spec fn as_generic(self) -> GenericParameterView {
        GenericParameterView::Type { name: self.name, bounds: self.bounds, default: None }
    }
}

/// A generic type parameter that takes the place of one `impl Trait`: a name
/// made up for it, and the bounds of the `impl Trait` as they were written.
#[derive(Debug, PartialEq, Eq)]
pub struct GeneratedTypeParameter {
    pub name: String,
    pub bounds: Vec<String>,
}

impl View for GeneratedTypeParameter {
    type V = GeneratedTypeParameterView;

    open spec fn view(&self) -> GeneratedTypeParameterView {
        GeneratedTypeParameterView { name: self.name@, bounds: self.bounds.deep_view() }
    }
}

impl DeepView for GeneratedTypeParameter {
    type V = GeneratedTypeParameterView;

    open spec fn deep_view(&self) -> GeneratedTypeParameterView {
        self.view()
    }
}

impl GeneratedTypeParameter {
    /// Turns the parameter into an entry of a generic parameter list.
    pub fn into_generic(self) -> (generic: GenericParameter)
        ensures
            generic@ == self@.as_generic(),
    {
        GenericParameter::Type { name: self.name, bounds: self.bounds, default: None }
    }
}

/// The view of a [`FunctionDeclaration`].
pub struct FunctionDeclarationView {
    pub visibility: Text,
    pub name: Text,
    pub generics: Seq<GenericParameterView>,
    pub params: Seq<ParameterView>,
    pub where_constraints: Seq<Text>,
    pub return_type: Option<TypeTree>,
    pub body: Text,
}

/// The declaration of a free function.
#[derive(Debug, PartialEq, Eq)]
pub struct FunctionDeclaration {
    /// The visibility marker as written (`pub`, `pub(crate)`), empty if there
    /// is none.
    pub visibility: String,
    /// The function's name.
    pub name: String,
    /// The generic parameters, in order.
    pub generics: Vec<GenericParameter>,
    /// The parameters, in order.
    pub params: Vec<Parameter>,
    /// The constraints of the where clause, in order.
    pub where_constraints: Vec<String>,
    /// The declared return type, if one is written.
    pub return_type: Option<DeclaredType>,
    /// The body, braces included.
    pub body: String,
}

impl View for FunctionDeclaration {
    type V = FunctionDeclarationView;

    open spec fn view(&self) -> FunctionDeclarationView {
        FunctionDeclarationView {
            visibility: self.visibility@,
            name: self.name@,
            generics: self.generics.deep_view(),
            params: self.params.deep_view(),
            where_constraints: self.where_constraints.deep_view(),
            return_type: self.return_type.deep_view(),
            body: self.body@,
        }
    }
}

impl DeepView for FunctionDeclaration {
    type V = FunctionDeclarationView;

    open spec fn deep_view(&self) -> FunctionDeclarationView {
        self.view()
    }
}

} // verus!
