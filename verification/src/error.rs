//! What the library reports when it cannot work on its input.

use vstd::prelude::*;
use crate::syntax::Text;

verus! {

/// The two classes of failure.
#[derive(Clone, Copy, Debug, PartialEq, Eq)]
pub enum ErrorKind {
    /// The invocation itself is malformed: the attribute has arguments, or
    /// the item is not a function declaration.
    Argument,
    /// The item is a function declaration of a shape that cannot be called
    /// as a method: it has no parameter, or one of its parameters is `self`.
    Shape,
}

/// The place in the source that an error points at.
#[derive(Clone, Copy, Debug, PartialEq, Eq)]
pub enum Location {
    /// The place where the attribute is written.
    CallSite,
    /// The place in the item that its reader has reported.
    Input,
    /// The opening delimiter of the parameter list.
    ParameterList,
    /// The `self` of the parameter with the given index, counted from zero.
    Parameter { index: usize },
}

/// The view of an [`Error`].
pub struct ErrorView {
    pub kind: ErrorKind,
    pub message: Text,
    pub location: Location,
}

/// A failure: its class, a message for the user, and where to show it.
#[derive(Debug, PartialEq, Eq)]
pub struct Error {
    pub kind: ErrorKind,
    pub message: String,
    pub location: Location,
}

impl View for Error {
    type V = ErrorView;

    open spec fn view(&self) -> ErrorView {
        ErrorView { kind: self.kind, message: self.message@, location: self.location }
    }
}

impl DeepView for Error {
    type V = ErrorView;

    open spec fn deep_view(&self) -> ErrorView {
        self.view()
    }
}

/// The view of a result: the view of what it holds.
pub open spec fn result_view<T: View, E: View>(result: Result<T, E>) -> Result<T::V, E::V> {
    match result {
        Ok(value) => Ok(value@),
        Err(error) => Err(error@),
    }
}

/// The error for an attribute that is written with arguments.
pub open spec fn unexpected_attributes() -> ErrorView {
    ErrorView {
        kind: ErrorKind::Argument,
        message: "unexpected attr(s)"@,
        location: Location::CallSite,
    }
}

/// The error for an item that could not be read as a function declaration,
/// with the message of whoever tried to read it.
pub open spec fn unreadable_item(message: Text) -> ErrorView {
    ErrorView { kind: ErrorKind::Argument, message, location: Location::Input }
}

/// The error for a function that has no parameter.
pub open spec fn missing_parameter() -> ErrorView {
    ErrorView {
        kind: ErrorKind::Shape,
        message: "expected at least one parameter"@,
        location: Location::ParameterList,
    }
}

/// The error for a function whose parameter at `index` is `self`.
pub open spec fn unexpected_receiver(index: usize) -> ErrorView {
    ErrorView {
        kind: ErrorKind::Shape,
        message: "unexpected self receiver"@,
        location: Location::Parameter { index },
    }
}

impl Error {
    /// Makes the error for an attribute that is written with arguments.
    pub fn unexpected_attributes() -> (error: Error)
        ensures
            error@ == unexpected_attributes(),
    {
        Error {
            kind: ErrorKind::Argument,
            message: String::from_str("unexpected attr(s)"),
            location: Location::CallSite,
        }
    }

    /// Makes the error for an item that could not be read.
    pub fn unreadable_item(message: String) -> (error: Error)
        ensures
            error@ == unreadable_item(message@),
    {
        Error { kind: ErrorKind::Argument, message, location: Location::Input }
    }

    /// Makes the error for a function that has no parameter.
    pub fn missing_parameter() -> (error: Error)
        ensures
            error@ == missing_parameter(),
    {
        Error {
            kind: ErrorKind::Shape,
            message: String::from_str("expected at least one parameter"),
            location: Location::ParameterList,
        }
    }

    /// Makes the error for a function whose parameter at `index` is `self`.
    pub fn unexpected_receiver(index: usize) -> (error: Error)
        ensures
            error@ == unexpected_receiver(index),
    {
        Error {
            kind: ErrorKind::Shape,
            message: String::from_str("unexpected self receiver"),
            location: Location::Parameter { index },
        }
    }
}

} // verus!
