//! Calling a free function with method syntax.
//!
//! Given the declaration of a free function whose first parameter has some
//! type `T`, the library works out three syntactic units: the function itself,
//! a trait of the same name with one method that has the function's signature
//! without its first parameter, and an impl of that trait for `T` whose method
//! forwards to the function. Every `impl Trait` inside the first parameter's
//! type is first promoted to a named generic parameter, so that the trait's
//! impl can name the type the function is called on.
//!
//! The library works on its own model of the syntax and leaves reading and
//! printing source text to its caller.

pub mod emit;
pub mod error;
pub mod laws;
pub mod rewrite;
pub mod signature;
pub mod syntax;
pub mod text;

use vstd::prelude::*;
use crate::emit::{emit, emitted, EmissionResult, EmissionView};
use crate::error::{result_view, unexpected_attributes, unreadable_item, Error, ErrorView};
use crate::rewrite::{promote_impl_traits, promoted};
use crate::signature::{split, split_signature, validate, validated};
use crate::syntax::{FunctionDeclaration, FunctionDeclarationView, Text};

verus! {

/// What [`as_method`] gives for the tokens `attr` of the attribute's
/// arguments and for `item`, which is the declaration that the attribute
/// stands on, or the message of whoever could not read it as one.
///
/// The checks come in this order, and the first that fails decides the
/// error: the attribute has no arguments; the item is a function
/// declaration; the function has a parameter; no parameter is `self`. Where
/// all hold, the units are those of the declaration with the `impl Trait`
/// types of its first parameter promoted.
pub open spec fn expansion(
    attr: Seq<Text>,
    item: Result<FunctionDeclarationView, Text>,
) -> Result<EmissionView, ErrorView> {
    if attr.len() > 0 {
        Err(unexpected_attributes())
    } else {
        match item {
            Err(message) => Err(unreadable_item(message)),
            Ok(decl) => match validated(decl) {
                Err(error) => Err(error),
                Ok(_) => match split(promoted(decl)) {
                    Err(error) => Err(error),
                    Ok(parts) => Ok(emitted(promoted(decl), parts)),
                },
            },
        }
    }
}

/// Makes a free function callable with method syntax.
///
/// `attr` holds the tokens of the attribute's arguments, and there must be
/// none. `item` is the function declaration that the attribute stands on, or
/// the message of whoever could not read the item as one. The result is the
/// function together with a trait of its name and an impl of the trait for
/// the type of its first parameter, or the one error that stopped the work.
pub fn as_method(
    attr: &Vec<String>,
    item: Result<FunctionDeclaration, String>,
) -> (result: EmissionResult)
    ensures
        result_view(result) == expansion(attr.deep_view(), result_view(item)),
{
    if attr.len() > 0 {
        return Err(Error::unexpected_attributes());
    }
    let mut func = match item {
        Ok(func) => func,
        Err(message) => {
            return Err(Error::unreadable_item(message));
        },
    };
    match validate(&func) {
        Ok(_) => {},
        Err(error) => {
            return Err(error);
        },
    }
    promote_impl_traits(&mut func);
    let parts = match split_signature(&func) {
        Ok(parts) => parts,
        Err(error) => {
            return Err(error);
        },
    };
    Ok(emit(func, parts))
}

} // verus!
