use as_method::as_method;
use as_method::emit::Emission;
use as_method::error::{Error, ErrorKind, Location};
use as_method::syntax::{DeclaredType, FunctionDeclaration, GenericParameter, Parameter};
use proc_macro2::TokenStream;
use quote::ToTokens;
use std::collections::HashMap;
use syn::visit_mut::VisitMut;

fn tokens_text<T: ToTokens>(tokens: &T) -> String {
    tokens.to_token_stream().to_string()
}

/// The tokens that were read, by their text. The library carries text; when
/// the text comes back to be printed, the tokens that it was made from are
/// printed, which know their place in the source.
#[derive(Default)]
struct Source {
    seen: HashMap<String, TokenStream>,
}

impl Source {
    /// The text of `tokens`, which is kept in mind.
    fn text<T: ToTokens>(&mut self, tokens: &T) -> String {
        let tokens = tokens.to_token_stream();
        let text = tokens.to_string();
        self.seen.entry(text.clone()).or_insert(tokens);
        text
    }

    /// The tokens that `text` was made from, or else those that it reads as.
    fn tokens(&self, text: &str) -> syn::Result<TokenStream> {
        match self.seen.get(text) {
            Some(tokens) => Ok(tokens.clone()),
            None => Ok(text.parse()?),
        }
    }
}

/// Takes out, or puts back, the types that are nested directly in a type:
/// those that syn's walk of the type comes to first. What is taken out leaves
/// `_` in its place.
enum Holes {
    Take(Vec<syn::Type>),
    Fill(std::vec::IntoIter<syn::Type>),
}

impl VisitMut for Holes {
    fn visit_type_mut(&mut self, node: &mut syn::Type) {
        match self {
            Holes::Take(parts) => {
                let hole = syn::Type::Infer(syn::TypeInfer { underscore_token: Default::default() });
                parts.push(std::mem::replace(node, hole));
            }
            Holes::Fill(parts) => {
                if let Some(part) = parts.next() {
                    *node = part;
                }
            }
        }
    }
}

fn declared_type(source: &mut Source, ty: &syn::Type) -> DeclaredType {
    match ty {
        syn::Type::ImplTrait(ty) => DeclaredType::ImplTrait {
            bounds: ty.bounds.iter().map(|bound| source.text(bound)).collect(),
        },
        syn::Type::Group(group) => declared_type(source, &group.elem),
        syn::Type::Path(path) if path.qself.is_none() && path.path.get_ident().is_some() => {
            DeclaredType::Named { name: source.text(&path.path) }
        }
        _ => {
            let mut form = ty.clone();
            let mut holes = Holes::Take(Vec::new());
            syn::visit_mut::visit_type_mut(&mut holes, &mut form);
            let parts = match holes {
                Holes::Take(parts) => parts,
                Holes::Fill(_) => Vec::new(),
            };
            DeclaredType::Other {
                form: source.text(&form),
                parts: parts.iter().map(|part| declared_type(source, part)).collect(),
            }
        }
    }
}

fn generic_parameter(source: &mut Source, param: &syn::GenericParam) -> GenericParameter {
    match param {
        syn::GenericParam::Lifetime(param) => GenericParameter::Lifetime {
            name: source.text(&param.lifetime),
            bounds: param.bounds.iter().map(|bound| source.text(bound)).collect(),
        },
        syn::GenericParam::Type(param) => GenericParameter::Type {
            name: source.text(&param.ident),
            bounds: param.bounds.iter().map(|bound| source.text(bound)).collect(),
            default: param.default.as_ref().map(|default| source.text(default)),
        },
        syn::GenericParam::Const(param) => GenericParameter::Const {
            name: source.text(&param.ident),
            ty: source.text(&param.ty),
            default: param.default.as_ref().map(|default| source.text(default)),
        },
    }
}

fn parameter(source: &mut Source, arg: &syn::FnArg) -> Parameter {
    match arg {
        syn::FnArg::Receiver(_) => Parameter::ImplicitSelf,
        syn::FnArg::Typed(arg) => {
            let mut name = TokenStream::new();
            for attr in &arg.attrs {
                attr.to_tokens(&mut name);
            }
            arg.pat.to_tokens(&mut name);
            Parameter::Named { name: source.text(&name), ty: declared_type(source, &arg.ty) }
        }
    }
}

/// The declaration as the library takes it. The attributes and qualifiers of
/// the function and the attributes of its generic parameters have no place in
/// it; they are put back when the function is printed.
fn declaration(source: &mut Source, func: &syn::ItemFn) -> FunctionDeclaration {
    FunctionDeclaration {
        visibility: source.text(&func.vis),
        name: source.text(&func.sig.ident),
        generics: func
            .sig
            .generics
            .params
            .iter()
            .map(|param| generic_parameter(source, param))
            .collect(),
        params: func.sig.inputs.iter().map(|arg| parameter(source, arg)).collect(),
        where_constraints: match &func.sig.generics.where_clause {
            Some(clause) => clause.predicates.iter().map(|found| source.text(found)).collect(),
            None => Vec::new(),
        },
        return_type: match &func.sig.output {
            syn::ReturnType::Default => None,
            syn::ReturnType::Type(_, ty) => Some(declared_type(source, ty)),
        },
        body: source.text(&func.block),
    }
}

fn syn_type(source: &Source, ty: &DeclaredType) -> syn::Result<syn::Type> {
    match ty {
        DeclaredType::ImplTrait { bounds } => {
            let mut tokens: TokenStream = "impl".parse()?;
            for (index, bound) in bounds.iter().enumerate() {
                if index > 0 {
                    tokens.extend("+".parse::<TokenStream>()?);
                }
                tokens.extend(source.tokens(bound)?);
            }
            syn::parse2(tokens)
        }
        DeclaredType::Named { name } => syn::parse2(source.tokens(name)?),
        DeclaredType::Other { form, parts } => {
            let mut node: syn::Type = syn::parse2(source.tokens(form)?)?;
            let parts =
                parts.iter().map(|part| syn_type(source, part)).collect::<syn::Result<Vec<_>>>()?;
            syn::visit_mut::visit_type_mut(&mut Holes::Fill(parts.into_iter()), &mut node);
            Ok(node)
        }
    }
}

fn generic_text(param: &GenericParameter) -> String {
    let with_bounds = |name: &String, bounds: &Vec<String>| {
        if bounds.is_empty() {
            name.clone()
        } else {
            format!("{}: {}", name, bounds.join(" + "))
        }
    };
    let with_default = |text: String, default: &Option<String>| match default {
        Some(default) => format!("{} = {}", text, default),
        None => text,
    };
    match param {
        GenericParameter::Lifetime { name, bounds } => with_bounds(name, bounds),
        GenericParameter::Type { name, bounds, default } => {
            with_default(with_bounds(name, bounds), default)
        }
        GenericParameter::Const { name, ty, default } => {
            with_default(format!("const {}: {}", name, ty), default)
        }
    }
}

fn read(item: &str) -> FunctionDeclaration {
    declaration(&mut Source::default(), &syn::parse_str(item).unwrap())
}

fn expand(attr: &str, item: &str) -> Result<Emission, Error> {
    let attr: TokenStream = attr.parse().unwrap();
    let attr: Vec<String> = attr.into_iter().map(|token| token.to_string()).collect();
    let item = match syn::parse_str::<syn::ItemFn>(item) {
        Ok(func) => Ok(declaration(&mut Source::default(), &func)),
        Err(error) => Err(error.to_string()),
    };
    as_method(&attr, item)
}

fn type_text(ty: &DeclaredType) -> String {
    tokens_text(&syn_type(&Source::default(), ty).unwrap())
}

fn generics_text(generics: &[GenericParameter], with_bounds: bool) -> String {
    if generics.is_empty() {
        return String::new();
    }
    let each: Vec<String> = generics
        .iter()
        .map(|param| match (with_bounds, param) {
            (true, _) => generic_text(param),
            (false, GenericParameter::Lifetime { name, .. }) => name.clone(),
            (false, GenericParameter::Type { name, .. }) => name.clone(),
            (false, GenericParameter::Const { name, .. }) => name.clone(),
        })
        .collect();
    format!("<{}>", each.join(", "))
}

/// The trait and the impl as source text, in one line.
fn trait_and_impl_text(units: &Emission) -> String {
    let method = |signature: &as_method::emit::MethodSignature| {
        let mut text = format!("fn {}(self", signature.name);
        for parameter in &signature.parameters {
            text += &format!(", {}: {}", parameter.name, type_text(&parameter.ty));
        }
        text += ")";
        if let Some(ty) = &signature.return_type {
            text += &format!(" -> {}", type_text(ty));
        }
        text
    };
    let where_clause = |constraints: &Vec<String>| {
        if constraints.is_empty() {
            String::new()
        } else {
            format!(" where {}", constraints.join(", "))
        }
    };
    let capability = &units.capability;
    let conformance = &units.conformance;
    let mut call = format!("{}(self", conformance.body.function);
    for argument in &conformance.body.arguments {
        call += &format!(", {}", argument);
    }
    call += ")";
    let text = format!(
        "{} trait {}{}{} {{ {}; }} impl{} {}{} for {}{} {{ {} {{ {} }} }}",
        capability.visibility,
        capability.name,
        generics_text(&capability.generics, false),
        where_clause(&capability.where_constraints),
        method(&capability.method),
        generics_text(&conformance.generics, true),
        conformance.capability,
        generics_text(&conformance.generics, false),
        type_text(&conformance.receiver_type),
        where_clause(&conformance.where_constraints),
        method(&conformance.method),
        call,
    );
    tokens_text(&syn::parse_str::<syn::File>(&text).unwrap())
}

fn normal(source: &str) -> String {
    tokens_text(&syn::parse_str::<syn::File>(source).unwrap())
}

/// Replaces `impl Trait` by walking syn's own tree.
struct DirectWalk(Vec<syn::TypeParam>);

impl VisitMut for DirectWalk {
    fn visit_type_mut(&mut self, node: &mut syn::Type) {
        if let syn::Type::ImplTrait(found) = node {
            let name = format!("AS_METHOD_SELF_T{}", self.0.len());
            let ident = syn::Ident::new(&name, proc_macro2::Span::call_site());
            let bounds = tokens_text(&found.bounds);
            self.0.push(syn::parse_str(&format!("{}: {}", name, bounds)).unwrap());
            *node = syn::parse_str(&ident.to_string()).unwrap();
        } else {
            syn::visit_mut::visit_type_mut(self, node);
        }
    }
}

const TYPES: &[&str] = &[
    "T",
    "u8",
    "_",
    "!",
    "()",
    "(A,)",
    "(A, B, C)",
    "(impl A)",
    "&mut Vec<T>",
    "&'a mut [T]",
    "[impl Copy; 4]",
    "[u8; N + 1]",
    "*const impl Sized",
    "std::vec::Vec<impl Into<u64>>",
    "HashMap<K, Vec<impl A + 'static>>",
    "Box<dyn Fn(impl A, &B) -> impl C>",
    "fn(impl A, u8) -> (impl B, impl C)",
    "unsafe extern \"C\" fn(x: *mut impl A, ...) -> i32",
    "for<'a> fn(&'a impl A) -> &'a u8",
    "<impl Iterator<Item = u8> as Iterator>::Item",
    "<Vec<impl A> as IntoIterator>::IntoIter",
    "impl Iterator<Item = impl A>",
    "impl A + B + ?Sized + 'static",
    "impl for<'a> Fn(&'a u8)",
    "Option<impl FnOnce(impl A) -> impl B>",
    "Wrapper<'a, { N }, impl A>",
    "Assoc<Item = impl A, Other: B>",
    "makes_a_type!(impl A)",
    "dyn Iterator<Item = impl A> + Send",
    "::core::option::Option<(impl A, [impl B], &dyn C<impl D>)>",
];

#[test]
fn types_come_back_from_the_model_as_they_went_in() {
    for source in TYPES {
        let ty: syn::Type = syn::parse_str(source).unwrap();
        let mut seen = Source::default();
        let model = declared_type(&mut seen, &ty);
        assert_eq!(syn_type(&seen, &model).unwrap(), ty, "{}", source);
        assert_eq!(syn_type(&Source::default(), &model).unwrap(), ty, "{}", source);
    }
}

#[test]
fn walk_agrees_with_a_walk_of_the_parsed_tree() {
    for source in TYPES {
        let mut ty: syn::Type = syn::parse_str(source).unwrap();
        let mut seen = Source::default();
        let mut model = declared_type(&mut seen, &ty);
        let mut walk = as_method::rewrite::ImplTraitReplace::new();
        walk.visit_type_mut(&mut model);
        let mut direct = DirectWalk(Vec::new());
        direct.visit_type_mut(&mut ty);
        assert_eq!(syn_type(&seen, &model).unwrap(), ty, "{}", source);
        let generated: Vec<syn::GenericParam> = walk
            .0
            .into_iter()
            .map(|parameter| syn::parse_str(&generic_text(&parameter.into_generic())).unwrap())
            .collect();
        let expected: Vec<syn::GenericParam> =
            direct.0.into_iter().map(syn::GenericParam::Type).collect();
        assert_eq!(generated, expected, "{}", source);
    }
}

#[test]
fn parsed_push_expands_to_a_trait_and_an_impl_for_mut_vec() {
    let units = expand("", "fn push<T>(v: &mut Vec<T>, x: T) { v.push(x) }").unwrap();
    assert_eq!(
        units.function,
        read("fn push<T>(v: &mut Vec<T>, x: T) { v.push(x) }")
    );
    assert_eq!(
        trait_and_impl_text(&units),
        normal(
            "trait push<T> { fn push(self, x1: T); } \
             impl<T> push<T> for &mut Vec<T> { fn push(self, x1: T) { push(self, x1) } }"
        )
    );
}

#[test]
fn parsed_nested_impl_trait_becomes_a_generic_parameter() {
    let source = "pub fn total<'a, S: Copy>(items: &'a Vec<impl Into<u64> + Copy>, start: S, \
                  scale: impl Fn(u64) -> u64) -> u64 where S: Into<u64> { start.into() }";
    let units = expand("", source).unwrap();
    let expected = "pub fn total<'a, S: Copy, AS_METHOD_SELF_T0: Into<u64> + Copy>(\
                    items: &'a Vec<AS_METHOD_SELF_T0>, start: S, scale: impl Fn(u64) -> u64) -> u64 \
                    where S: Into<u64> { start.into() }";
    assert_eq!(units.function, read(expected));
    assert_eq!(
        trait_and_impl_text(&units),
        normal(
            "pub trait total<'a, S, AS_METHOD_SELF_T0> where S: Into<u64> { \
                 fn total(self, x1: S, x2: impl Fn(u64) -> u64) -> u64; \
             } \
             impl<'a, S: Copy, AS_METHOD_SELF_T0: Into<u64> + Copy> total<'a, S, AS_METHOD_SELF_T0> \
             for &'a Vec<AS_METHOD_SELF_T0> where S: Into<u64> { \
                 fn total(self, x1: S, x2: impl Fn(u64) -> u64) -> u64 { total(self, x1, x2) } \
             }"
        )
    );
}

#[test]
fn parsed_single_parameter_forwards_the_value_alone() {
    let units = expand("", "fn len(text: &str) -> usize { text.len() }").unwrap();
    assert_eq!(
        trait_and_impl_text(&units),
        normal(
            "trait len { fn len(self) -> usize; } \
             impl len for &str { fn len(self) -> usize { len(self) } }"
        )
    );
}

#[test]
fn parsed_attribute_arguments_are_refused() {
    assert_eq!(
        expand("attr = \"x\"", "fn f(a: u8) {}"),
        Err(Error {
            kind: ErrorKind::Argument,
            message: "unexpected attr(s)".to_string(),
            location: Location::CallSite,
        })
    );
}

#[test]
fn parsed_function_without_parameters_is_refused() {
    assert_eq!(
        expand("", "fn f() {}"),
        Err(Error {
            kind: ErrorKind::Shape,
            message: "expected at least one parameter".to_string(),
            location: Location::ParameterList,
        })
    );
}

#[test]
fn parsed_receivers_are_refused() {
    let error = |index| {
        Err(Error {
            kind: ErrorKind::Shape,
            message: "unexpected self receiver".to_string(),
            location: Location::Parameter { index },
        })
    };
    assert_eq!(expand("", "fn f(self) {}"), error(0));
    assert_eq!(expand("", "fn f(&mut self, a: u8) {}"), error(0));
    assert_eq!(expand("", "fn f(self: Box<Self>) {}"), error(0));
}

#[test]
fn item_that_is_no_function_is_refused_with_the_parsers_message() {
    let message = syn::parse_str::<syn::ItemFn>("struct S;").unwrap_err().to_string();
    assert_eq!(
        expand("", "struct S;"),
        Err(Error { kind: ErrorKind::Argument, message, location: Location::Input })
    );
}

#[test]
fn made_up_names_read_as_identifiers() {
    for n in (0..120).chain([999, 1000, 65535, usize::MAX]) {
        let generated = as_method::text::write_generated_name(n);
        let synthetic = as_method::text::write_synthetic_name(n);
        assert_eq!(syn::parse_str::<syn::Ident>(&generated).unwrap().to_string(), generated);
        assert_eq!(syn::parse_str::<syn::Ident>(&synthetic).unwrap().to_string(), synthetic);
    }
}

#[test]
fn texts_that_were_read_come_back_as_the_tokens_they_were() {
    let ty: syn::Type = syn::parse_str("&'a mut Vec<T>").unwrap();
    let mut seen = Source::default();
    let model = declared_type(&mut seen, &ty);
    assert_eq!(
        model,
        DeclaredType::Other {
            form: "& 'a mut _".to_string(),
            parts: vec![DeclaredType::Other {
                form: "Vec < _ >".to_string(),
                parts: vec![DeclaredType::Named { name: "T".to_string() }],
            }],
        }
    );
    assert_eq!(seen.tokens("Vec < _ >").unwrap().to_string(), "Vec < _ >");
    assert_eq!(seen.tokens("Option<u8>").unwrap().to_string(), "Option < u8 >");
    assert!(seen.tokens("(").is_err());
}
