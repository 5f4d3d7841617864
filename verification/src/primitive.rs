//! What every filter primitive with an input declares: the input, the name
//! of its result and its subregion; and how the bounds of its output follow
//! from them.

use crate::context::{FilterContext, FilterOutput};
use crate::error::{Attribute, FilterError, ParseError};
use crate::input::{input_of_token, Input, InputView};
use crate::length::{below_zero, length_of_text, Length, LengthView};
use crate::property_bag::{attribute_of, Property};
use crate::rect::IRect;
use vstd::prelude::*;

verus! {

/// The declarations that every primitive with an input shares.
#[derive(Debug)]
pub struct PrimitiveWithInput {
    pub input: Option<Input>,
    pub result: Option<String>,
    pub x: Option<Length>,
    pub y: Option<Length>,
    pub width: Option<Length>,
    pub height: Option<Length>,
}

/// The shared declarations as plain values.
pub struct PrimitiveView {
    pub input: Option<InputView>,
    pub result: Option<Seq<char>>,
    pub x: Option<LengthView>,
    pub y: Option<LengthView>,
    pub width: Option<LengthView>,
    pub height: Option<LengthView>,
}

pub open spec fn input_view(input: Option<Input>) -> Option<InputView> {
    match input {
        Some(i) => Some(i@),
        None => None,
    }
}

pub open spec fn length_view(length: Option<Length>) -> Option<LengthView> {
    match length {
        Some(l) => Some(l@),
        None => None,
    }
}

pub open spec fn text_view(text: Option<String>) -> Option<Seq<char>> {
    match text {
        Some(t) => Some(t@),
        None => None,
    }
}

impl View for PrimitiveWithInput {
    type V = PrimitiveView;

    open spec fn view(&self) -> PrimitiveView {
        PrimitiveView {
            input: input_view(self.input),
            result: text_view(self.result),
            x: length_view(self.x),
            y: length_view(self.y),
            width: length_view(self.width),
            height: length_view(self.height),
        }
    }
}

impl PrimitiveView {
    /// A primitive with nothing declared.
    pub open spec fn empty() -> PrimitiveView {
        PrimitiveView { input: None, result: None, x: None, y: None, width: None, height: None }
    }

    /// Whether a subregion is declared: all of `x`, `y`, `width` and
    /// `height` are.
    pub open spec fn declares_subregion(self) -> bool {
        self.x is Some && self.y is Some && self.width is Some && self.height is Some
    }

    /// The subregion that counts: `subregion`, the declared subregion in
    /// pixels, where one is declared.
    pub open spec fn effective_subregion(self, subregion: Option<IRect>) -> Option<IRect> {
        if self.declares_subregion() {
            subregion
        } else {
            None
        }
    }

    /// The declarations after reading one attribute, or the error that its
    /// value gives. An input must not be empty; a length must follow the
    /// grammar of lengths, and a width or height must not be below zero.
    /// Attributes that are not shared leave the declarations as they are.
    pub open spec fn with_attribute(self, name: Seq<char>, value: Seq<char>) -> Result<
        PrimitiveView,
        ParseError,
    > {
        match attribute_of(name) {
            Some(Attribute::In) => if value.len() == 0 {
                Err(ParseError { attribute: Attribute::In })
            } else {
                Ok(PrimitiveView { input: Some(input_of_token(value)), ..self })
            },
            Some(Attribute::Result) => Ok(PrimitiveView { result: Some(value), ..self }),
            Some(Attribute::X) => match length_of_text(value) {
                Some(l) => Ok(PrimitiveView { x: Some(l), ..self }),
                None => Err(ParseError { attribute: Attribute::X }),
            },
            Some(Attribute::Y) => match length_of_text(value) {
                Some(l) => Ok(PrimitiveView { y: Some(l), ..self }),
                None => Err(ParseError { attribute: Attribute::Y }),
            },
            Some(Attribute::Width) => match length_of_text(value) {
                Some(l) => if below_zero(l) {
                    Err(ParseError { attribute: Attribute::Width })
                } else {
                    Ok(PrimitiveView { width: Some(l), ..self })
                },
                None => Err(ParseError { attribute: Attribute::Width }),
            },
            Some(Attribute::Height) => match length_of_text(value) {
                Some(l) => if below_zero(l) {
                    Err(ParseError { attribute: Attribute::Height })
                } else {
                    Ok(PrimitiveView { height: Some(l), ..self })
                },
                None => Err(ParseError { attribute: Attribute::Height }),
            },
            _ => Ok(self),
        }
    }

    /// The declarations after reading the attributes in order up to the
    /// first error, and that error, if there is one. What was read before
    /// the error stays.
    pub open spec fn with_attributes(self, atts: Seq<Property>) -> (PrimitiveView, Option<
        ParseError,
    >)
        decreases atts.len(),
    {
        if atts.len() == 0 {
            (self, None)
        } else {
            match self.with_attribute(atts[0].name@, atts[0].value@) {
                Ok(next) => next.with_attributes(atts.drop_first()),
                Err(e) => (self, Some(e)),
            }
        }
    }
}

/// What a call that reads attributes returns for the error, if any, that
/// the attributes gave.
pub open spec fn outcome(error: Option<ParseError>) -> Result<(), ParseError> {
    match error {
        None => Ok(()),
        Some(e) => Err(e),
    }
}

/// The rectangle `rect`, if any, enlarged to cover `more` too.
pub open spec fn joined(rect: Option<IRect>, more: IRect) -> IRect {
    match rect {
        None => more,
        Some(r) => r.bounding_union(more),
    }
}

/// The bounds of the output of a primitive with two inputs: the bounding
/// union of its subregion, where it has one, and of the bounds of both
/// inputs, clipped to the filter region.
pub open spec fn primitive_bounds(
    subregion: Option<IRect>,
    first: IRect,
    second: IRect,
    region: IRect,
) -> IRect {
    joined(Some(joined(subregion, first)), second).intersection(region)
}

/// Without a subregion, the bounds are the filter region intersected with the
/// bounding union of the bounds of the inputs.
pub proof fn lemma_bounds_without_subregion(first: IRect, second: IRect, region: IRect)
    ensures
        primitive_bounds(None, first, second, region) == region.intersection(
            first.bounding_union(second),
        ),
{
}

/// The bounds never leave the filter region, and inside it they cover the
/// subregion and the bounds of both inputs.
pub proof fn lemma_bounds_cover_inputs(
    subregion: Option<IRect>,
    first: IRect,
    second: IRect,
    region: IRect,
)
    ensures
        primitive_bounds(subregion, first, second, region).within(region),
        first.intersection(region).within(primitive_bounds(subregion, first, second, region)),
        second.intersection(region).within(primitive_bounds(subregion, first, second, region)),
        subregion matches Some(s) ==> s.intersection(region).within(
            primitive_bounds(subregion, first, second, region),
        ),
{
    let inner = joined(subregion, first);
    let all = joined(Some(inner), second);
    crate::rect::lemma_bounding_union_is_least(inner, second, all);
    match subregion {
        Some(s) => {
            crate::rect::lemma_bounding_union_is_least(s, first, inner);
        },
        None => {},
    }
}

/// Gathers the rectangles that bound a primitive's output.
#[derive(Clone, Copy, Debug)]
pub struct BoundsBuilder {
    /// The filter region.
    pub region: IRect,
    /// The bounding union of what was gathered so far, if anything was.
    pub rect: Option<IRect>,
}

impl BoundsBuilder {
    /// The gathered rectangle clipped to the filter region; the filter
    /// region itself where nothing was gathered.
    pub open spec fn bounds(self) -> IRect {
        match self.rect {
            Some(rect) => rect.intersection(self.region),
            None => self.region,
        }
    }

    pub fn new(region: IRect, subregion: Option<IRect>) -> (b: BoundsBuilder)
        ensures
            b.region == region,
            b.rect == subregion,
    {
        BoundsBuilder { region, rect: subregion }
    }

    /// Enlarges the gathered rectangle to cover the bounds of `input`.
    pub fn add_input(self, input: &FilterOutput) -> (b: BoundsBuilder)
        ensures
            b.region == self.region,
            b.rect == Some(joined(self.rect, input.bounds)),
    {
        let rect = match self.rect {
            None => input.bounds,
            Some(r) => r.union(&input.bounds),
        };
        BoundsBuilder { region: self.region, rect: Some(rect) }
    }

    pub fn into_irect(self) -> (r: IRect)
        ensures
            r == self.bounds(),
    {
        match self.rect {
            Some(rect) => rect.intersect(&self.region),
            None => self.region,
        }
    }
}

impl PrimitiveWithInput {
    /// A primitive with nothing declared.
    pub fn new() -> (p: PrimitiveWithInput)
        ensures
            p@ == PrimitiveView::empty(),
    {
        PrimitiveWithInput {
            input: None,
            result: None,
            x: None,
            y: None,
            width: None,
            height: None,
        }
    }

    /// Reads one attribute. On an error nothing changes.
    pub fn set_attribute(&mut self, name: &str, value: &str) -> (r: Result<(), ParseError>)
        ensures
            match old(self)@.with_attribute(name@, value@) {
                Ok(next) => r is Ok && final(self)@ == next,
                Err(e) => r == Err::<(), ParseError>(e) && final(self)@ == old(self)@,
            },
    {
        match Attribute::from_name(name) {
            Some(Attribute::In) => {
                match Input::parse(Attribute::In, value) {
                    Ok(input) => {
                        self.input = Some(input);
                        Ok(())
                    },
                    Err(e) => Err(e),
                }
            },
            Some(Attribute::Result) => {
                self.result = Some(value.to_owned());
                Ok(())
            },
            Some(Attribute::X) => {
                match Length::parse(Attribute::X, value) {
                    Ok(l) => {
                        self.x = Some(l);
                        Ok(())
                    },
                    Err(e) => Err(e),
                }
            },
            Some(Attribute::Y) => {
                match Length::parse(Attribute::Y, value) {
                    Ok(l) => {
                        self.y = Some(l);
                        Ok(())
                    },
                    Err(e) => Err(e),
                }
            },
            Some(Attribute::Width) => {
                match Length::parse(Attribute::Width, value) {
                    Ok(l) => {
                        if l.is_below_zero() {
                            Err(ParseError::new(Attribute::Width))
                        } else {
                            self.width = Some(l);
                            Ok(())
                        }
                    },
                    Err(e) => Err(e),
                }
            },
            Some(Attribute::Height) => {
                match Length::parse(Attribute::Height, value) {
                    Ok(l) => {
                        if l.is_below_zero() {
                            Err(ParseError::new(Attribute::Height))
                        } else {
                            self.height = Some(l);
                            Ok(())
                        }
                    },
                    Err(e) => Err(e),
                }
            },
            _ => Ok(()),
        }
    }

    /// Reads the attributes in order and stops at the first error. What was
    /// read before the error stays.
    pub fn set_atts(&mut self, pbag: &[Property]) -> (r: Result<(), ParseError>)
        ensures
            final(self)@ == old(self)@.with_attributes(pbag@).0,
            r == outcome(old(self)@.with_attributes(pbag@).1),
    {
        let ghost start = self@;
        let mut i: usize = 0;
        assert(pbag@.skip(0) =~= pbag@);
        while i < pbag.len()
            invariant
                i <= pbag@.len(),
                start == old(self)@,
                self@.with_attributes(pbag@.skip(i as int)) == start.with_attributes(pbag@),
            decreases pbag@.len() - i,
        {
            let ghost rest = pbag@.skip(i as int);
            let ghost before = self@;
            assert(rest[0] == pbag@[i as int]);
            assert(rest.drop_first() =~= pbag@.skip(i + 1));
            let p = &pbag[i];
            match self.set_attribute(p.name.as_str(), p.value.as_str()) {
                Ok(_) => {},
                Err(e) => {
                    assert(before.with_attributes(rest) == (before, Some(e)));
                    return Err(e);
                },
            }
            i += 1;
        }
        assert(pbag@.skip(i as int).len() == 0);
        Ok(())
    }

    /// Whether a subregion is declared.
    pub fn declares_subregion(&self) -> (r: bool)
        ensures
            r == self@.declares_subregion(),
    {
        self.x.is_some() && self.y.is_some() && self.width.is_some() && self.height.is_some()
    }

    /// Resolves the declared input in `ctx`.
    pub fn get_input<'a>(&self, ctx: &'a FilterContext) -> (r: Result<
        &'a FilterOutput,
        FilterError,
    >)
        requires
            ctx.wf(),
        ensures
            match (r, ctx.resolve(self@.input)) {
                (Ok(found), Ok(denoted)) => *found == denoted && found.surface.wf(),
                (Err(e), Err(f)) => e == f,
                _ => false,
            },
    {
        ctx.get_input(self.input.as_ref())
    }

    /// Starts gathering the bounds of this primitive's output from its
    /// subregion. `subregion` is the declared subregion in pixels; it is set
    /// aside where the primitive declares none.
    pub fn get_bounds(&self, ctx: &FilterContext, subregion: Option<IRect>) -> (b: BoundsBuilder)
        ensures
            b.region == ctx.filter_region(),
            b.rect == self@.effective_subregion(subregion),
    {
        if self.declares_subregion() {
            BoundsBuilder::new(ctx.effects_region(), subregion)
        } else {
            BoundsBuilder::new(ctx.effects_region(), None)
        }
    }
}

} // verus!
