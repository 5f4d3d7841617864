//! The blend primitive: composites its first input over its second with one
//! of sixteen blend modes.

use crate::composite::{Composite, Operator, PaintSource};
use crate::context::{FilterContext, FilterOutput, FilterResult};
use crate::error::{Attribute, FilterError, ParseError};
use crate::input::{input_of_token, Input, InputView};
use crate::primitive::{
    input_view, lemma_bounds_cover_inputs, outcome, primitive_bounds, text_view, PrimitiveView,
    PrimitiveWithInput,
};
use crate::property_bag::{attribute_of, Property};
use crate::rect::IRect;
use crate::surface::{
    allocate_pixels, restricted, BackendSurface, Pixel, SharedImageSurface, SurfaceType,
    SurfaceView,
};
use crate::text::str_eq;
use vstd::prelude::*;

verus! {

/// The blend modes.
#[derive(Clone, Copy, Debug, PartialEq, Eq, Hash, Structural)]
pub enum Mode {
    Normal,
    Multiply,
    Screen,
    Darken,
    Lighten,
    Overlay,
    ColorDodge,
    ColorBurn,
    HardLight,
    SoftLight,
    Difference,
    Exclusion,
    Hue,
    Saturation,
    Color,
    Luminosity,
}

impl Mode {
    /// The keyword that names this mode in a `mode` attribute.
    pub open spec fn keyword(self) -> Seq<char> {
        match self {
            Mode::Normal => "normal"@,
            Mode::Multiply => "multiply"@,
            Mode::Screen => "screen"@,
            Mode::Darken => "darken"@,
            Mode::Lighten => "lighten"@,
            Mode::Overlay => "overlay"@,
            Mode::ColorDodge => "color-dodge"@,
            Mode::ColorBurn => "color-burn"@,
            Mode::HardLight => "hard-light"@,
            Mode::SoftLight => "soft-light"@,
            Mode::Difference => "difference"@,
            Mode::Exclusion => "exclusion"@,
            Mode::Hue => "hue"@,
            Mode::Saturation => "saturation"@,
            Mode::Color => "color"@,
            Mode::Luminosity => "luminosity"@,
        }
    }

    /// The mode that `s` names, if it is the keyword of one. Keywords are
    /// case-sensitive.
    pub open spec fn from_keyword(s: Seq<char>) -> Option<Mode> {
        if s == "normal"@ {
            Some(Mode::Normal)
        } else if s == "multiply"@ {
            Some(Mode::Multiply)
        } else if s == "screen"@ {
            Some(Mode::Screen)
        } else if s == "darken"@ {
            Some(Mode::Darken)
        } else if s == "lighten"@ {
            Some(Mode::Lighten)
        } else if s == "overlay"@ {
            Some(Mode::Overlay)
        } else if s == "color-dodge"@ {
            Some(Mode::ColorDodge)
        } else if s == "color-burn"@ {
            Some(Mode::ColorBurn)
        } else if s == "hard-light"@ {
            Some(Mode::HardLight)
        } else if s == "soft-light"@ {
            Some(Mode::SoftLight)
        } else if s == "difference"@ {
            Some(Mode::Difference)
        } else if s == "exclusion"@ {
            Some(Mode::Exclusion)
        } else if s == "hue"@ {
            Some(Mode::Hue)
        } else if s == "saturation"@ {
            Some(Mode::Saturation)
        } else if s == "color"@ {
            Some(Mode::Color)
        } else if s == "luminosity"@ {
            Some(Mode::Luminosity)
        } else {
            None
        }
    }

    /// The backend's compositing operator for this mode.
    pub open spec fn operator(self) -> Operator {
        match self {
            Mode::Normal => Operator::Over,
            Mode::Multiply => Operator::Multiply,
            Mode::Screen => Operator::Screen,
            Mode::Darken => Operator::Darken,
            Mode::Lighten => Operator::Lighten,
            Mode::Overlay => Operator::Overlay,
            Mode::ColorDodge => Operator::ColorDodge,
            Mode::ColorBurn => Operator::ColorBurn,
            Mode::HardLight => Operator::HardLight,
            Mode::SoftLight => Operator::SoftLight,
            Mode::Difference => Operator::Difference,
            Mode::Exclusion => Operator::Exclusion,
            Mode::Hue => Operator::HslHue,
            Mode::Saturation => Operator::HslSaturation,
            Mode::Color => Operator::HslColor,
            Mode::Luminosity => Operator::HslLuminosity,
        }
    }

    /// Parses the value of the attribute `attr` as a blend mode. A value
    /// that is not the keyword of a mode is an error that names `attr`.
    pub fn parse(attr: Attribute, s: &str) -> (r: Result<Mode, ParseError>)
        ensures
            r == match Mode::from_keyword(s@) {
                Some(mode) => Ok::<Mode, ParseError>(mode),
                None => Err::<Mode, ParseError>(ParseError { attribute: attr }),
            },
    {
        if str_eq(s, "normal") {
            Ok(Mode::Normal)
        } else if str_eq(s, "multiply") {
            Ok(Mode::Multiply)
        } else if str_eq(s, "screen") {
            Ok(Mode::Screen)
        } else if str_eq(s, "darken") {
            Ok(Mode::Darken)
        } else if str_eq(s, "lighten") {
            Ok(Mode::Lighten)
        } else if str_eq(s, "overlay") {
            Ok(Mode::Overlay)
        } else if str_eq(s, "color-dodge") {
            Ok(Mode::ColorDodge)
        } else if str_eq(s, "color-burn") {
            Ok(Mode::ColorBurn)
        } else if str_eq(s, "hard-light") {
            Ok(Mode::HardLight)
        } else if str_eq(s, "soft-light") {
            Ok(Mode::SoftLight)
        } else if str_eq(s, "difference") {
            Ok(Mode::Difference)
        } else if str_eq(s, "exclusion") {
            Ok(Mode::Exclusion)
        } else if str_eq(s, "hue") {
            Ok(Mode::Hue)
        } else if str_eq(s, "saturation") {
            Ok(Mode::Saturation)
        } else if str_eq(s, "color") {
            Ok(Mode::Color)
        } else if str_eq(s, "luminosity") {
            Ok(Mode::Luminosity)
        } else {
            Err(ParseError::new(attr))
        }
    }
}

impl From<Mode> for Operator {
    fn from(x: Mode) -> (r: Operator) {
        match x {
            Mode::Normal => Operator::Over,
            Mode::Multiply => Operator::Multiply,
            Mode::Screen => Operator::Screen,
            Mode::Darken => Operator::Darken,
            Mode::Lighten => Operator::Lighten,
            Mode::Overlay => Operator::Overlay,
            Mode::ColorDodge => Operator::ColorDodge,
            Mode::ColorBurn => Operator::ColorBurn,
            Mode::HardLight => Operator::HardLight,
            Mode::SoftLight => Operator::SoftLight,
            Mode::Difference => Operator::Difference,
            Mode::Exclusion => Operator::Exclusion,
            Mode::Hue => Operator::HslHue,
            Mode::Saturation => Operator::HslSaturation,
            Mode::Color => Operator::HslColor,
            Mode::Luminosity => Operator::HslLuminosity,
        }
    }
}

impl vstd::std_specs::convert::FromSpecImpl<Mode> for Operator {
    open spec fn obeys_from_spec() -> bool {
        true
    }

    open spec fn from_spec(x: Mode) -> Operator {
        x.operator()
    }
}

/// Every mode is named by its own keyword and by no other mode's, so a
/// keyword parses to the mode it names and composites with that mode's
/// operator.
pub proof fn lemma_keyword_names_its_mode(mode: Mode)
    ensures
        Mode::from_keyword(mode.keyword()) == Some(mode),
        forall|s: Seq<char>| Mode::from_keyword(s) == Some(mode) ==> s == mode.keyword(),
{
    reveal_strlit("normal");
    reveal_strlit("multiply");
    reveal_strlit("screen");
    reveal_strlit("darken");
    reveal_strlit("lighten");
    reveal_strlit("overlay");
    reveal_strlit("color-dodge");
    reveal_strlit("color-burn");
    reveal_strlit("hard-light");
    reveal_strlit("soft-light");
    reveal_strlit("difference");
    reveal_strlit("exclusion");
    reveal_strlit("hue");
    reveal_strlit("saturation");
    reveal_strlit("color");
    reveal_strlit("luminosity");
    assert("normal"@.len() == 6 && "normal"@[0] == 'n');
    assert("multiply"@.len() == 8);
    assert("screen"@.len() == 6 && "screen"@[0] == 's');
    assert("darken"@.len() == 6 && "darken"@[0] == 'd');
    assert("lighten"@.len() == 7 && "lighten"@[0] == 'l');
    assert("overlay"@.len() == 7 && "overlay"@[0] == 'o');
    assert("color-dodge"@.len() == 11);
    assert("color-burn"@.len() == 10 && "color-burn"@[0] == 'c');
    assert("hard-light"@.len() == 10 && "hard-light"@[0] == 'h');
    assert("soft-light"@.len() == 10 && "soft-light"@[0] == 's');
    assert("difference"@.len() == 10 && "difference"@[0] == 'd');
    assert("exclusion"@.len() == 9);
    assert("hue"@.len() == 3);
    assert("saturation"@.len() == 10 && "saturation"@[1] == 'a');
    assert("color"@.len() == 5);
    assert("luminosity"@.len() == 10 && "luminosity"@[0] == 'l');
    assert("soft-light"@[1] == 'o' && "difference"@[1] == 'i');
}

/// The type of a blend's output: the second input's type where the first
/// holds alpha only, and the first input's type otherwise.
pub open spec fn blend_surface_type(first: SurfaceType, second: SurfaceType) -> SurfaceType {
    if first == SurfaceType::AlphaOnly {
        second
    } else {
        first
    }
}

/// Whether two surfaces can be combined: they have one type, or one of them
/// holds alpha only.
pub open spec fn surface_types_agree(first: SurfaceType, second: SurfaceType) -> bool {
    first == SurfaceType::AlphaOnly || second == SurfaceType::AlphaOnly || first == second
}

/// An input that holds alpha only leaves the type of the output to the other
/// input, and inputs that agree give an output that agrees with both.
pub proof fn lemma_blend_surface_type(first: SurfaceType, second: SurfaceType)
    ensures
        first == SurfaceType::AlphaOnly ==> blend_surface_type(first, second) == second,
        second == SurfaceType::AlphaOnly ==> blend_surface_type(first, second) == first,
        first == SurfaceType::AlphaOnly && second == SurfaceType::SRgb ==> blend_surface_type(
            first,
            second,
        ) == SurfaceType::SRgb,
        first == SurfaceType::AlphaOnly && second == SurfaceType::AlphaOnly
            ==> blend_surface_type(first, second) == SurfaceType::AlphaOnly,
        surface_types_agree(first, second) ==> blend_surface_type(first, second)
            == blend_surface_type(second, first) && surface_types_agree(
            blend_surface_type(first, second),
            first,
        ) && surface_types_agree(blend_surface_type(first, second), second),
{
}

/// Without a subregion that counts, the bounds of a blend's output are the
/// filter region intersected with the bounding union of the bounds of its
/// inputs, whatever pixel rectangle was handed in for the subregion.
pub proof fn lemma_render_bounds_without_subregion(
    blend: Blend,
    ctx: FilterContext,
    subregion: Option<IRect>,
    first: FilterOutput,
    second: FilterOutput,
    composite: Composite,
    pending: PendingResult,
)
    requires
        blend.renders(&ctx, subregion, first, second, composite, pending),
        !blend@.base.declares_subregion() || subregion is None,
    ensures
        pending.bounds == ctx.filter_region().intersection(
            first.bounds.bounding_union(second.bounds),
        ),
        forall|x: int, y: int|
            pending.bounds.contains(x, y) <==> ctx.filter_region().contains(x, y) && (
            first.bounds.bounding_union(second.bounds)).contains(x, y),
        pending.bounds.within(ctx.filter_region()),
        first.bounds.intersection(ctx.filter_region()).within(pending.bounds),
        second.bounds.intersection(ctx.filter_region()).within(pending.bounds),
{
    lemma_bounds_cover_inputs(None, first.bounds, second.bounds, ctx.filter_region());
}

/// A blend that declares no first input, in a context without a stored
/// result, takes the source graphic for it: the first input resolves, so the
/// inputs can fail to resolve on the second one only, and the paint source of
/// the render is the source graphic.
pub proof fn lemma_render_without_input(
    blend: Blend,
    ctx: FilterContext,
    subregion: Option<IRect>,
    first: FilterOutput,
    second: FilterOutput,
    composite: Composite,
    pending: PendingResult,
)
    requires
        blend@.base.input is None,
        ctx.last_result() is None,
    ensures
        ctx.resolve(blend@.base.input) == Ok::<FilterOutput, FilterError>(
            ctx.standard_input(InputView::SourceGraphic),
        ),
        blend.inputs(&ctx) matches Err(e) ==> ctx.resolve(blend@.in2) == Err::<
            FilterOutput,
            FilterError,
        >(e),
        blend.inputs(&ctx) == Ok::<(FilterOutput, FilterOutput), FilterError>((first, second))
            && blend.renders(&ctx, subregion, first, second, composite, pending)
            ==> composite.source == Some(
            PaintSource {
                surface: ctx.standard_input(InputView::SourceGraphic).surface,
                x: 0,
                y: 0,
            },
        ),
{
}

/// What a blend in normal mode hands to the backend: the first input is
/// painted with the operator `Over`, inside the bounds, onto a working
/// surface that holds the second input inside the bounds and is transparent
/// outside. What the pixels are after painting is for the backend to say.
pub proof fn lemma_normal_mode_paints_over(
    blend: Blend,
    ctx: FilterContext,
    subregion: Option<IRect>,
    first: FilterOutput,
    second: FilterOutput,
    composite: Composite,
    pending: PendingResult,
)
    requires
        blend@.mode == Mode::Normal,
        blend.renders(&ctx, subregion, first, second, composite, pending),
    ensures
        composite.operator == Operator::Over,
        composite.source == Some(PaintSource { surface: first.surface, x: 0, y: 0 }),
        composite.clip == Some(pending.bounds),
        composite.target.width == second.surface@.width,
        composite.target.height == second.surface@.height,
        composite.target.pixels@ == restricted(
            second.surface@.pixels,
            second.surface@.width,
            pending.bounds,
        ),
{
}

/// The output of a blend has the second input's type where the first input
/// holds alpha only: sRGB where the second input is sRGB, alpha only where
/// both inputs hold alpha only.
pub proof fn lemma_render_surface_type(
    blend: Blend,
    ctx: FilterContext,
    subregion: Option<IRect>,
    first: FilterOutput,
    second: FilterOutput,
    composite: Composite,
    pending: PendingResult,
)
    requires
        blend.renders(&ctx, subregion, first, second, composite, pending),
        first.surface@.surface_type == SurfaceType::AlphaOnly,
    ensures
        pending.surface_type == second.surface@.surface_type,
{
}

/// The `feBlend` filter primitive.
#[derive(Debug)]
pub struct Blend {
    base: PrimitiveWithInput,
    in2: Option<Input>,
    mode: Mode,
}

/// What a blend declares, as plain values.
pub struct BlendView {
    pub base: PrimitiveView,
    pub in2: Option<InputView>,
    pub mode: Mode,
}

impl View for Blend {
    type V = BlendView;

    closed spec fn view(&self) -> BlendView {
        BlendView { base: self.base@, in2: input_view(self.in2), mode: self.mode }
    }
}

impl BlendView {
    /// The declarations after reading one of the blend's own attributes, or
    /// the error that its value gives. A second input must not be empty and
    /// a mode must be a keyword. Other attributes leave the declarations as
    /// they are.
    pub open spec fn with_attribute(self, name: Seq<char>, value: Seq<char>) -> Result<
        BlendView,
        ParseError,
    > {
        match attribute_of(name) {
            Some(Attribute::In2) => if value.len() == 0 {
                Err(ParseError { attribute: Attribute::In2 })
            } else {
                Ok(BlendView { in2: Some(input_of_token(value)), ..self })
            },
            Some(Attribute::Mode) => match Mode::from_keyword(value) {
                Some(mode) => Ok(BlendView { mode, ..self }),
                None => Err(ParseError { attribute: Attribute::Mode }),
            },
            _ => Ok(self),
        }
    }

    /// The declarations after reading the blend's own attributes in order up
    /// to the first error, and that error, if there is one.
    pub open spec fn with_own_attributes(self, atts: Seq<Property>) -> (BlendView, Option<
        ParseError,
    >)
        decreases atts.len(),
    {
        if atts.len() == 0 {
            (self, None)
        } else {
            match self.with_attribute(atts[0].name@, atts[0].value@) {
                Ok(next) => next.with_own_attributes(atts.drop_first()),
                Err(e) => (self, Some(e)),
            }
        }
    }

    /// The declarations after reading all attributes: first the shared ones
    /// in order, then, where none of those was in error, the blend's own in
    /// order. What was read before an error stays.
    pub open spec fn with_attributes(self, atts: Seq<Property>) -> (BlendView, Option<ParseError>) {
        let (base, error) = self.base.with_attributes(atts);
        let shared = BlendView { base, ..self };
        match error {
            Some(e) => (shared, Some(e)),
            None => shared.with_own_attributes(atts),
        }
    }
}

/// What is kept of a render while the backend paints: the name, the bounds
/// and the type of the result to come.
#[derive(Debug)]
pub struct PendingResult {
    pub name: Option<String>,
    pub bounds: IRect,
    pub surface_type: SurfaceType,
}

impl PendingResult {
    /// Whether `result` is this pending result completed by the working
    /// surface `painted`: it has the name, the bounds and the type that were
    /// kept, and the dimensions and pixels of the painted surface.
    pub open spec fn completed_by(self, painted: BackendSurface, result: FilterResult) -> bool {
        &&& result.name == self.name
        &&& result.output.bounds == self.bounds
        &&& result.output.surface.wf()
        &&& result.output.surface@ == (SurfaceView {
            width: painted.width as int,
            height: painted.height as int,
            pixels: painted.pixels@,
            surface_type: self.surface_type,
        })
    }

    /// Takes the painted working surface over as the result. Fails where the
    /// backend left the surface in an error state.
    pub fn complete(self, painted: BackendSurface) -> (r: Result<FilterResult, FilterError>)
        ensures
            painted.in_error_state() ==> r == Err::<FilterResult, FilterError>(
                FilterError::BadIntermediateSurfaceStatus,
            ),
            !painted.in_error_state() ==> r is Ok && self.completed_by(painted, r->Ok_0),
    {
        match SharedImageSurface::wrap(painted, self.surface_type) {
            Ok(surface) => Ok(
                FilterResult {
                    name: self.name,
                    output: FilterOutput { surface, bounds: self.bounds },
                },
            ),
            Err(e) => Err(e),
        }
    }
}

impl Blend {
    /// Constructs a new `Blend` with empty properties.
    pub fn new() -> (blend: Blend)
        ensures
            blend@ == (BlendView { base: PrimitiveView::empty(), in2: None, mode: Mode::Normal }),
    {
        Blend { base: PrimitiveWithInput::new(), in2: None, mode: Mode::Normal }
    }

    pub fn mode(&self) -> (m: Mode)
        ensures
            m == self@.mode,
    {
        self.mode
    }

    pub fn in2(&self) -> (i: Option<&Input>)
        ensures
            input_view(match i {
                Some(input) => Some(*input),
                None => None,
            }) == self@.in2,
    {
        self.in2.as_ref()
    }

    pub fn base(&self) -> (b: &PrimitiveWithInput)
        ensures
            b@ == self@.base,
    {
        &self.base
    }

    /// Reads one of the blend's own attributes. On an error nothing changes.
    fn set_attribute(&mut self, name: &str, value: &str) -> (r: Result<(), ParseError>)
        ensures
            match old(self)@.with_attribute(name@, value@) {
                Ok(next) => r is Ok && final(self)@ == next,
                Err(e) => r == Err::<(), ParseError>(e) && final(self)@ == old(self)@,
            },
    {
        match Attribute::from_name(name) {
            Some(Attribute::In2) => {
                match Input::parse(Attribute::In2, value) {
                    Ok(input) => {
                        self.in2 = Some(input);
                        Ok(())
                    },
                    Err(e) => Err(e),
                }
            },
            Some(Attribute::Mode) => {
                match Mode::parse(Attribute::Mode, value) {
                    Ok(mode) => {
                        self.mode = mode;
                        Ok(())
                    },
                    Err(e) => Err(e),
                }
            },
            _ => Ok(()),
        }
    }

    /// Reads the attributes of the element: the shared ones first, then the
    /// blend's own, each in order, and stops at the first error. What was
    /// read before the error stays.
    pub fn set_atts(&mut self, pbag: &[Property]) -> (r: Result<(), ParseError>)
        ensures
            final(self)@ == old(self)@.with_attributes(pbag@).0,
            r == outcome(old(self)@.with_attributes(pbag@).1),
    {
        match self.base.set_atts(pbag) {
            Ok(_) => {},
            Err(e) => {
                return Err(e);
            },
        }
        let ghost start = self@;
        let mut i: usize = 0;
        assert(pbag@.skip(0) =~= pbag@);
        while i < pbag.len()
            invariant
                i <= pbag@.len(),
                self@.with_own_attributes(pbag@.skip(i as int)) == start.with_own_attributes(
                    pbag@,
                ),
                start.with_own_attributes(pbag@) == old(self)@.with_attributes(pbag@),
            decreases pbag@.len() - i,
        {
            let ghost rest = pbag@.skip(i as int);
            let ghost before = self@;
            assert(rest[0] == pbag@[i as int]);
            assert(rest.drop_first() =~= pbag@.skip(i + 1));
            let p = &pbag[i];
            match self.set_attribute(p.name.as_str(), p.value.as_str()) {
                Ok(_) => {},
                Err(e) => {
                    assert(before.with_own_attributes(rest) == (before, Some(e)));
                    return Err(e);
                },
            }
            i += 1;
        }
        assert(pbag@.skip(i as int).len() == 0);
        Ok(())
    }

    /// What both inputs resolve to in `ctx`, or the error of the first one
    /// that does not resolve.
    pub open spec fn inputs(&self, ctx: &FilterContext) -> Result<
        (FilterOutput, FilterOutput),
        FilterError,
    > {
        match ctx.resolve(self@.base.input) {
            Err(e) => Err(e),
            Ok(first) => match ctx.resolve(self@.in2) {
                Err(e) => Err(e),
                Ok(second) => Ok((first, second)),
            },
        }
    }

    /// Whether the inputs, where both resolve, can be combined.
    pub open spec fn inputs_agree(&self, ctx: &FilterContext) -> bool {
        match self.inputs(ctx) {
            Ok((first, second)) => surface_types_agree(
                first.surface@.surface_type,
                second.surface@.surface_type,
            ),
            Err(_) => true,
        }
    }

    /// Whether `composite` and `pending` are the render of this blend over
    /// the inputs `first` and `second`: the working surface holds the second
    /// input inside the bounds and is transparent outside, painting is
    /// clipped to the bounds, the first input is the paint source at the
    /// origin, and the operator is that of the mode.
    pub open spec fn renders(
        &self,
        ctx: &FilterContext,
        subregion: Option<IRect>,
        first: FilterOutput,
        second: FilterOutput,
        composite: Composite,
        pending: PendingResult,
    ) -> bool {
        let bounds = primitive_bounds(
            self@.base.effective_subregion(subregion),
            first.bounds,
            second.bounds,
            ctx.filter_region(),
        );
        &&& pending.bounds == bounds
        &&& pending.surface_type == blend_surface_type(
            first.surface@.surface_type,
            second.surface@.surface_type,
        )
        &&& text_view(pending.name) == self@.base.result
        &&& second.surface.copied_to(bounds, composite.target)
        &&& composite.clip == Some(bounds)
        &&& composite.source == Some(PaintSource { surface: first.surface, x: 0, y: 0 })
        &&& composite.operator == self@.mode.operator()
    }

    /// Whether the inputs of this blend, where both resolve in `ctx`, can be
    /// combined.
    pub fn check_inputs_agree(&self, ctx: &FilterContext) -> (r: bool)
        requires
            ctx.wf(),
        ensures
            r == self.inputs_agree(ctx),
    {
        match self.base.get_input(ctx) {
            Err(_) => true,
            Ok(first) => match ctx.get_input(self.in2.as_ref()) {
                Err(_) => true,
                Ok(second) => {
                    first.surface.is_alpha_only() || second.surface.is_alpha_only()
                        || first.surface.surface_type() == second.surface.surface_type()
                },
            },
        }
    }

    /// Prepares the render with the storage for the working surface given:
    /// resolves both inputs, computes the bounds and the type of the output,
    /// and puts the paint operation together. Without storage there is no
    /// working surface.
    pub fn begin_render_with(
        &self,
        ctx: &FilterContext,
        subregion: Option<IRect>,
        buffer: Option<Vec<Pixel>>,
    ) -> (r: Result<(Composite, PendingResult), FilterError>)
        requires
            ctx.wf(),
            self.inputs_agree(ctx),
        ensures
            match self.inputs(ctx) {
                Err(e) => r == Err::<(Composite, PendingResult), FilterError>(e),
                Ok((first, second)) => match buffer {
                    None => r == Err::<(Composite, PendingResult), FilterError>(
                        FilterError::IntermediateSurfaceCreation,
                    ),
                    Some(_) => r is Ok && self.renders(
                        ctx,
                        subregion,
                        first,
                        second,
                        r->Ok_0.0,
                        r->Ok_0.1,
                    ),
                },
            },
    {
        let input = match self.base.get_input(ctx) {
            Ok(input) => input,
            Err(e) => {
                return Err(e);
            },
        };
        let input_2 = match ctx.get_input(self.in2.as_ref()) {
            Ok(input) => input,
            Err(e) => {
                return Err(e);
            },
        };
        let bounds = self.base.get_bounds(ctx, subregion).add_input(input).add_input(
            input_2,
        ).into_irect();
        let surface_type = Self::output_surface_type(
            input.surface.surface_type(),
            input_2.surface.surface_type(),
        );
        let output_surface = match input_2.surface.copy_region_with(bounds, buffer) {
            Ok(surface) => surface,
            Err(e) => {
                return Err(e);
            },
        };
        let mut composite = Composite::new(output_surface);
        composite.clip(bounds);
        input.surface.set_as_paint_source(&mut composite, 0, 0);
        composite.set_operator(Operator::from(self.mode));
        let name = match &self.base.result {
            Some(name) => Some(name.clone()),
            None => None,
        };
        Ok((composite, PendingResult { name, bounds, surface_type }))
    }

    /// Prepares the render: resolves both inputs, computes the bounds and
    /// the type of the output, and puts the paint operation together over a
    /// fresh working surface. The backend then paints, and the painted
    /// surface completes the pending result. Fails where an input does not
    /// resolve, and where the working surface cannot be allocated. A working
    /// surface without pixels needs no storage: over a second input without
    /// pixels the render is prepared whenever both inputs resolve.
    pub fn begin_render(&self, ctx: &FilterContext, subregion: Option<IRect>) -> (r: Result<
        (Composite, PendingResult),
        FilterError,
    >)
        requires
            ctx.wf(),
            self.inputs_agree(ctx),
        ensures
            match self.inputs(ctx) {
                Err(e) => r == Err::<(Composite, PendingResult), FilterError>(e),
                Ok((first, second)) => {
                    &&& second.surface@.pixels.len() == 0 ==> r is Ok
                    &&& match r {
                        Ok((composite, pending)) => self.renders(
                            ctx,
                            subregion,
                            first,
                            second,
                            composite,
                            pending,
                        ),
                        Err(e) => e == FilterError::IntermediateSurfaceCreation,
                    }
                },
            },
    {
        let len = match ctx.get_input(self.in2.as_ref()) {
            Ok(input_2) => input_2.surface.pixels().len(),
            Err(_) => 0,
        };
        self.begin_render_with(ctx, subregion, allocate_pixels(len))
    }

    /// The type of the output of a blend over inputs of the given types.
    pub fn output_surface_type(first: SurfaceType, second: SurfaceType) -> (t: SurfaceType)
        ensures
            t == blend_surface_type(first, second),
    {
        match first {
            SurfaceType::AlphaOnly => second,
            _ => first,
        }
    }

    /// Blend works in the colour space that the filter's colour
    /// interpolation selects: its inputs are to be in that space.
    pub fn is_affected_by_color_interpolation_filters() -> (r: bool)
        ensures
            r,
    {
        true
    }
}

} // verus!
