//! Attribute names and the errors of parsing and rendering.

use vstd::prelude::*;

verus! {

/// The attributes that a filter primitive reads.
#[derive(Clone, Copy, Debug, PartialEq, Eq, Hash, Structural)]
pub enum Attribute {
    In,
    In2,
    Mode,
    Result,
    X,
    Y,
    Width,
    Height,
}

/// An attribute whose value could not be parsed.
#[derive(Clone, Copy, Debug, PartialEq, Eq, Structural)]
pub struct ParseError {
    /// The attribute that held the malformed value.
    pub attribute: Attribute,
}

/// A failure while rendering a filter primitive.
#[derive(Clone, Copy, Debug, PartialEq, Eq, Structural)]
pub enum FilterError {
    /// A primitive names a result that no earlier primitive stored.
    InvalidReference,
    /// The backend could not allocate an intermediate surface.
    IntermediateSurfaceCreation,
    /// A backend surface went into an error state.
    BadIntermediateSurfaceStatus,
}

impl ParseError {
    pub fn new(attribute: Attribute) -> (e: ParseError)
        ensures
            e.attribute == attribute,
    {
        ParseError { attribute }
    }
}

} // verus!
