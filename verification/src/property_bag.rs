//! The attributes of an element, as pairs of name and value in document
//! order.

use crate::error::Attribute;
use crate::text::str_eq;
use vstd::prelude::*;

verus! {

/// One attribute as written: its name and its value.
#[derive(Debug)]
pub struct Property {
    pub name: String,
    pub value: String,
}

impl Property {
    pub fn new(name: &str, value: &str) -> (p: Property)
        ensures
            p.name@ == name@,
            p.value@ == value@,
    {
        Property { name: name.to_owned(), value: value.to_owned() }
    }
}

/// The attribute that a name spells, if a filter primitive reads it. Names
/// are case-sensitive.
pub open spec fn attribute_of(name: Seq<char>) -> Option<Attribute> {
    if name == "in"@ {
        Some(Attribute::In)
    } else if name == "in2"@ {
        Some(Attribute::In2)
    } else if name == "mode"@ {
        Some(Attribute::Mode)
    } else if name == "result"@ {
        Some(Attribute::Result)
    } else if name == "x"@ {
        Some(Attribute::X)
    } else if name == "y"@ {
        Some(Attribute::Y)
    } else if name == "width"@ {
        Some(Attribute::Width)
    } else if name == "height"@ {
        Some(Attribute::Height)
    } else {
        None
    }
}

impl Attribute {
    /// The attribute that `name` spells, if a filter primitive reads it.
    pub fn from_name(name: &str) -> (r: Option<Attribute>)
        ensures
            r == attribute_of(name@),
    {
        if str_eq(name, "in") {
            Some(Attribute::In)
        } else if str_eq(name, "in2") {
            Some(Attribute::In2)
        } else if str_eq(name, "mode") {
            Some(Attribute::Mode)
        } else if str_eq(name, "result") {
            Some(Attribute::Result)
        } else if str_eq(name, "x") {
            Some(Attribute::X)
        } else if str_eq(name, "y") {
            Some(Attribute::Y)
        } else if str_eq(name, "width") {
            Some(Attribute::Width)
        } else if str_eq(name, "height") {
            Some(Attribute::Height)
        } else {
            None
        }
    }
}

/// Each attribute name spells its own attribute.
pub proof fn lemma_attribute_names()
    ensures
        attribute_of("in"@) == Some(Attribute::In),
        attribute_of("in2"@) == Some(Attribute::In2),
        attribute_of("mode"@) == Some(Attribute::Mode),
        attribute_of("result"@) == Some(Attribute::Result),
        attribute_of("x"@) == Some(Attribute::X),
        attribute_of("y"@) == Some(Attribute::Y),
        attribute_of("width"@) == Some(Attribute::Width),
        attribute_of("height"@) == Some(Attribute::Height),
{
    reveal_strlit("in");
    reveal_strlit("in2");
    reveal_strlit("mode");
    reveal_strlit("result");
    reveal_strlit("x");
    reveal_strlit("y");
    reveal_strlit("width");
    reveal_strlit("height");
    assert("in"@.len() == 2 && "in2"@.len() == 3 && "mode"@.len() == 4);
    assert("result"@.len() == 6 && "x"@.len() == 1 && "y"@.len() == 1);
    assert("width"@.len() == 5 && "height"@.len() == 6);
    assert("x"@[0] == 'x' && "y"@[0] == 'y');
    assert("result"@[0] == 'r' && "height"@[0] == 'h');
}

} // verus!
