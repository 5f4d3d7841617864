//! What a filter primitive names as its input: one of the reserved tokens, or
//! the result of an earlier primitive by its name.

use crate::error::{Attribute, ParseError};
use crate::text::str_eq;
use vstd::prelude::*;

verus! {

/// An input reference as written in an `in` or `in2` attribute.
#[derive(Debug, PartialEq, Eq)]
pub enum Input {
    SourceGraphic,
    SourceAlpha,
    BackgroundImage,
    BackgroundAlpha,
    FillPaint,
    StrokePaint,
    /// The result that an earlier primitive stored under this name.
    FilterOutput(String),
}

/// An input reference with the name as a sequence of characters.
pub enum InputView {
    SourceGraphic,
    SourceAlpha,
    BackgroundImage,
    BackgroundAlpha,
    FillPaint,
    StrokePaint,
    FilterOutput(Seq<char>),
}

impl View for Input {
    type V = InputView;

    open spec fn view(&self) -> InputView {
        match self {
            Input::SourceGraphic => InputView::SourceGraphic,
            Input::SourceAlpha => InputView::SourceAlpha,
            Input::BackgroundImage => InputView::BackgroundImage,
            Input::BackgroundAlpha => InputView::BackgroundAlpha,
            Input::FillPaint => InputView::FillPaint,
            Input::StrokePaint => InputView::StrokePaint,
            Input::FilterOutput(name) => InputView::FilterOutput(name@),
        }
    }
}

/// The input that a non-empty attribute value denotes: the reserved token
/// that it spells, if any, and otherwise a reference to the result of that
/// name. Tokens are case-sensitive.
pub open spec fn input_of_token(s: Seq<char>) -> InputView {
    if s == "SourceGraphic"@ {
        InputView::SourceGraphic
    } else if s == "SourceAlpha"@ {
        InputView::SourceAlpha
    } else if s == "BackgroundImage"@ {
        InputView::BackgroundImage
    } else if s == "BackgroundAlpha"@ {
        InputView::BackgroundAlpha
    } else if s == "FillPaint"@ {
        InputView::FillPaint
    } else if s == "StrokePaint"@ {
        InputView::StrokePaint
    } else {
        InputView::FilterOutput(s)
    }
}

impl Input {
    /// Parses the value of the attribute `attr`. The empty string denotes no
    /// input and is rejected; every other string is accepted.
    pub fn parse(attr: Attribute, s: &str) -> (r: Result<Input, ParseError>)
        ensures
            s@.len() == 0 ==> r == Err::<Input, ParseError>(ParseError { attribute: attr }),
            s@.len() > 0 ==> r is Ok && r->Ok_0@ == input_of_token(s@),
    {
        if str_eq(s, "SourceGraphic") {
            proof {
                reveal_strlit("SourceGraphic");
            }
            Ok(Input::SourceGraphic)
        } else if str_eq(s, "SourceAlpha") {
            proof {
                reveal_strlit("SourceAlpha");
            }
            Ok(Input::SourceAlpha)
        } else if str_eq(s, "BackgroundImage") {
            proof {
                reveal_strlit("BackgroundImage");
            }
            Ok(Input::BackgroundImage)
        } else if str_eq(s, "BackgroundAlpha") {
            proof {
                reveal_strlit("BackgroundAlpha");
            }
            Ok(Input::BackgroundAlpha)
        } else if str_eq(s, "FillPaint") {
            proof {
                reveal_strlit("FillPaint");
            }
            Ok(Input::FillPaint)
        } else if str_eq(s, "StrokePaint") {
            proof {
                reveal_strlit("StrokePaint");
            }
            Ok(Input::StrokePaint)
        } else if s.is_empty() {
            Err(ParseError::new(attr))
        } else {
            Ok(Input::FilterOutput(s.to_owned()))
        }
    }
}

/// Each reserved token denotes its own input, and no result can be reached
/// under the spelling of a reserved token.
pub proof fn lemma_reserved_tokens()
    ensures
        input_of_token("SourceGraphic"@) == InputView::SourceGraphic,
        input_of_token("SourceAlpha"@) == InputView::SourceAlpha,
        input_of_token("BackgroundImage"@) == InputView::BackgroundImage,
        input_of_token("BackgroundAlpha"@) == InputView::BackgroundAlpha,
        input_of_token("FillPaint"@) == InputView::FillPaint,
        input_of_token("StrokePaint"@) == InputView::StrokePaint,
        forall|s: Seq<char>|
            input_of_token(s) is FilterOutput ==> (#[trigger] input_of_token(s))
                == InputView::FilterOutput(s) && s != "SourceGraphic"@ && s != "SourceAlpha"@ && s
                != "BackgroundImage"@ && s != "BackgroundAlpha"@ && s != "FillPaint"@ && s
                != "StrokePaint"@,
{
    reveal_strlit("SourceGraphic");
    reveal_strlit("SourceAlpha");
    reveal_strlit("BackgroundImage");
    reveal_strlit("BackgroundAlpha");
    reveal_strlit("FillPaint");
    reveal_strlit("StrokePaint");
    assert("SourceGraphic"@.len() == 13 && "SourceAlpha"@.len() == 11);
    assert("BackgroundImage"@.len() == 15 && "BackgroundAlpha"@.len() == 15);
    assert("FillPaint"@.len() == 9 && "StrokePaint"@.len() == 11);
    assert("BackgroundImage"@[10] == 'I' && "BackgroundAlpha"@[10] == 'A');
    assert("SourceAlpha"@[1] == 'o' && "StrokePaint"@[1] == 't');
}

} // verus!
