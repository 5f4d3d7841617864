use rsvg_filters::blend::{Blend, Mode, PendingResult};
use rsvg_filters::composite::{Composite, Operator};
use rsvg_filters::context::{FilterContext, FilterOutput, FilterResult};
use rsvg_filters::error::{Attribute, FilterError, ParseError};
use rsvg_filters::input::Input;
use rsvg_filters::length::LengthUnit;
use rsvg_filters::primitive::{BoundsBuilder, PrimitiveWithInput};
use rsvg_filters::property_bag::Property;
use rsvg_filters::rect::IRect;
use rsvg_filters::surface::{BackendSurface, Pixel, SharedImageSurface, SurfaceType};

fn flat(width: u32, height: u32, value: u8, surface_type: SurfaceType) -> SharedImageSurface {
    let pixels = vec![Pixel { r: value, g: value, b: value, a: value }; (width * height) as usize];
    SharedImageSurface::wrap(BackendSurface::new(width, height, pixels), surface_type).unwrap()
}

fn context(region: IRect) -> FilterContext {
    FilterContext::new(
        flat(4, 4, 1, SurfaceType::SRgb),
        flat(4, 4, 2, SurfaceType::AlphaOnly),
        flat(4, 4, 3, SurfaceType::SRgb),
        flat(4, 4, 4, SurfaceType::AlphaOnly),
        flat(4, 4, 5, SurfaceType::SRgb),
        flat(4, 4, 6, SurfaceType::SRgb),
        region,
    )
}

fn value_of(output: &FilterOutput) -> u8 {
    output.surface.pixels()[0].r
}

fn bag(pairs: &[(&str, &str)]) -> Vec<Property> {
    pairs.iter().map(|(name, value)| Property::new(name, value)).collect()
}

/// Stands in for the backend: leaves the working surface as it was seeded.
fn paint(composite: Composite) -> BackendSurface {
    composite.target
}

fn run(blend: &Blend, ctx: &mut FilterContext, subregion: Option<IRect>) -> Result<(), FilterError> {
    assert!(blend.check_inputs_agree(ctx));
    let (composite, pending) = blend.begin_render(ctx, subregion)?;
    let result = pending.complete(paint(composite))?;
    ctx.store_result(result);
    Ok(())
}

#[test]
fn absent_input_resolves_to_source_graphic_at_first() {
    let region = IRect::new(0, 0, 4, 4);
    let ctx = context(region);
    let found = ctx.get_input(None).unwrap();
    assert_eq!(value_of(found), 1);
    assert_eq!(found.bounds, region);
    assert_eq!(ctx.effects_region(), region);
}

#[test]
fn reserved_tokens_resolve_to_the_special_inputs() {
    let ctx = context(IRect::new(1, 1, 3, 3));
    let tokens = [
        (Input::SourceGraphic, 1),
        (Input::SourceAlpha, 2),
        (Input::BackgroundImage, 3),
        (Input::BackgroundAlpha, 4),
        (Input::FillPaint, 5),
        (Input::StrokePaint, 6),
    ];
    for (token, value) in tokens {
        let found = ctx.get_input(Some(&token)).unwrap();
        assert_eq!(value_of(found), value);
        assert_eq!(found.bounds, IRect::new(1, 1, 3, 3));
    }
}

#[test]
fn unknown_name_is_an_invalid_reference() {
    let mut ctx = context(IRect::new(0, 0, 4, 4));
    let name = Input::FilterOutput("a".to_string());
    assert_eq!(ctx.get_input(Some(&name)).err(), Some(FilterError::InvalidReference));
    ctx.store_result(FilterResult {
        name: Some("b".to_string()),
        output: FilterOutput { surface: flat(4, 4, 9, SurfaceType::SRgb), bounds: IRect::new(0, 0, 1, 1) },
    });
    assert_eq!(ctx.get_input(Some(&name)).err(), Some(FilterError::InvalidReference));
    ctx.store_result(FilterResult {
        name: None,
        output: FilterOutput { surface: flat(4, 4, 10, SurfaceType::SRgb), bounds: IRect::new(0, 0, 1, 1) },
    });
    assert_eq!(ctx.get_input(Some(&name)).err(), Some(FilterError::InvalidReference));
}

#[test]
fn stored_results_resolve_by_name_and_as_latest() {
    let mut ctx = context(IRect::new(0, 0, 4, 4));
    ctx.store_result(FilterResult {
        name: Some("a".to_string()),
        output: FilterOutput { surface: flat(4, 4, 20, SurfaceType::SRgb), bounds: IRect::new(0, 0, 2, 2) },
    });
    ctx.store_result(FilterResult {
        name: Some("b".to_string()),
        output: FilterOutput { surface: flat(4, 4, 30, SurfaceType::SRgb), bounds: IRect::new(1, 1, 2, 2) },
    });
    let a = Input::FilterOutput("a".to_string());
    let b = Input::FilterOutput("b".to_string());
    assert_eq!(value_of(ctx.get_input(Some(&a)).unwrap()), 20);
    assert_eq!(ctx.get_input(Some(&a)).unwrap().bounds, IRect::new(0, 0, 2, 2));
    assert_eq!(value_of(ctx.get_input(Some(&b)).unwrap()), 30);
    assert_eq!(value_of(ctx.get_input(None).unwrap()), 30);
    ctx.store_result(FilterResult {
        name: None,
        output: FilterOutput { surface: flat(4, 4, 40, SurfaceType::SRgb), bounds: IRect::new(0, 0, 4, 4) },
    });
    assert_eq!(value_of(ctx.get_input(None).unwrap()), 40);
    assert_eq!(value_of(ctx.get_input(Some(&a)).unwrap()), 20);
    assert_eq!(value_of(ctx.get_input(Some(&b)).unwrap()), 30);
    assert_eq!(value_of(ctx.get_input(Some(&Input::SourceGraphic)).unwrap()), 1);
}

#[test]
fn storing_a_name_again_replaces_the_result() {
    let mut ctx = context(IRect::new(0, 0, 4, 4));
    for value in [20u8, 30, 40] {
        ctx.store_result(FilterResult {
            name: Some("a".to_string()),
            output: FilterOutput {
                surface: flat(4, 4, value, SurfaceType::SRgb),
                bounds: IRect::new(0, 0, value as i32, 1),
            },
        });
        ctx.store_result(FilterResult {
            name: Some("other".to_string()),
            output: FilterOutput { surface: flat(4, 4, 7, SurfaceType::SRgb), bounds: IRect::new(0, 0, 1, 1) },
        });
        let a = Input::FilterOutput("a".to_string());
        assert_eq!(value_of(ctx.get_input(Some(&a)).unwrap()), value);
        assert_eq!(ctx.get_input(Some(&a)).unwrap().bounds, IRect::new(0, 0, value as i32, 1));
        assert_eq!(value_of(ctx.get_input(None).unwrap()), 7);
    }
}

#[test]
fn a_result_may_carry_the_spelling_of_no_reserved_token_only() {
    let mut ctx = context(IRect::new(0, 0, 4, 4));
    ctx.store_result(FilterResult {
        name: Some("SourceGraphic".to_string()),
        output: FilterOutput { surface: flat(4, 4, 50, SurfaceType::SRgb), bounds: IRect::new(0, 0, 1, 1) },
    });
    let parsed = Input::parse(Attribute::In, "SourceGraphic").unwrap();
    assert_eq!(value_of(ctx.get_input(Some(&parsed)).unwrap()), 1);
}

#[test]
fn new_blend_has_empty_properties() {
    let blend = Blend::new();
    assert_eq!(blend.mode(), Mode::Normal);
    assert_eq!(blend.in2(), None);
    assert_eq!(blend.base().input, None);
    assert_eq!(blend.base().result, None);
    assert_eq!(blend.base().x, None);
    assert_eq!(blend.base().y, None);
    assert_eq!(blend.base().width, None);
    assert_eq!(blend.base().height, None);
    assert!(!blend.base().declares_subregion());
    assert!(Blend::is_affected_by_color_interpolation_filters());
}

#[test]
fn set_atts_reads_shared_and_own_attributes() {
    let mut blend = Blend::new();
    let atts = bag(&[
        ("mode", "multiply"),
        ("id", "b1"),
        ("in", "SourceGraphic"),
        ("in2", "SourceAlpha"),
        ("result", "a"),
        ("x", "1"),
        ("y", "2px"),
        ("width", "50%"),
        ("height", "0"),
    ]);
    assert_eq!(blend.set_atts(&atts), Ok(()));
    assert_eq!(blend.mode(), Mode::Multiply);
    assert_eq!(blend.in2(), Some(&Input::SourceAlpha));
    assert_eq!(blend.base().input, Some(Input::SourceGraphic));
    assert_eq!(blend.base().result, Some("a".to_string()));
    assert!(blend.base().declares_subregion());
    assert_eq!(blend.base().y.as_ref().unwrap().unit, LengthUnit::Px);
    assert_eq!(blend.base().width.as_ref().unwrap().unit, LengthUnit::Percent);
    assert_eq!(blend.base().width.as_ref().unwrap().integer, b"50".to_vec());
}

#[test]
fn set_atts_lets_the_last_value_of_an_attribute_win() {
    let mut blend = Blend::new();
    let atts = bag(&[("mode", "screen"), ("in2", "a"), ("mode", "darken"), ("in2", "b")]);
    assert_eq!(blend.set_atts(&atts), Ok(()));
    assert_eq!(blend.mode(), Mode::Darken);
    assert_eq!(blend.in2(), Some(&Input::FilterOutput("b".to_string())));
}

#[test]
fn set_atts_stops_at_an_unknown_mode_and_keeps_what_was_read() {
    let mut blend = Blend::new();
    let atts = bag(&[("in2", "FillPaint"), ("mode", "xyz"), ("in2", "StrokePaint"), ("result", "r")]);
    assert_eq!(blend.set_atts(&atts), Err(ParseError { attribute: Attribute::Mode }));
    assert_eq!(blend.mode(), Mode::Normal);
    assert_eq!(blend.in2(), Some(&Input::FillPaint));
    assert_eq!(blend.base().result, Some("r".to_string()));
}

#[test]
fn set_atts_reports_shared_attributes_first() {
    let mut blend = Blend::new();
    let atts = bag(&[("mode", "xyz"), ("result", "r"), ("width", "-1"), ("in", "a")]);
    assert_eq!(blend.set_atts(&atts), Err(ParseError { attribute: Attribute::Width }));
    assert_eq!(blend.mode(), Mode::Normal);
    assert_eq!(blend.base().result, Some("r".to_string()));
    assert_eq!(blend.base().input, None);
}

#[test]
fn set_atts_rejects_malformed_geometry_and_empty_inputs() {
    for (name, value, attribute) in [
        ("x", "ten", Attribute::X),
        ("y", "", Attribute::Y),
        ("width", "1 0", Attribute::Width),
        ("height", "-0.5", Attribute::Height),
        ("in", "", Attribute::In),
        ("in2", "", Attribute::In2),
    ] {
        let mut blend = Blend::new();
        assert_eq!(
            blend.set_atts(&bag(&[(name, value)])),
            Err(ParseError { attribute })
        );
    }
    let mut blend = Blend::new();
    assert_eq!(blend.set_atts(&bag(&[("x", "-5"), ("y", "-5"), ("width", "-0")])), Ok(()));
}

#[test]
fn primitive_set_attribute_leaves_other_attributes_alone() {
    let mut base = PrimitiveWithInput::new();
    assert_eq!(base.set_attribute("mode", "xyz"), Ok(()));
    assert_eq!(base.set_attribute("in2", ""), Ok(()));
    assert_eq!(base.set_attribute("in", "BackgroundImage"), Ok(()));
    assert_eq!(base.input, Some(Input::BackgroundImage));
    assert_eq!(base.set_attribute("in", ""), Err(ParseError { attribute: Attribute::In }));
    assert_eq!(base.input, Some(Input::BackgroundImage));
}

#[test]
fn bounds_builder_unites_and_clips() {
    let region = IRect::new(0, 0, 10, 10);
    let a = FilterOutput { surface: flat(1, 1, 0, SurfaceType::SRgb), bounds: IRect::new(2, 2, 4, 4) };
    let b = FilterOutput { surface: flat(1, 1, 0, SurfaceType::SRgb), bounds: IRect::new(8, 3, 12, 5) };
    assert_eq!(BoundsBuilder::new(region, None).into_irect(), region);
    assert_eq!(
        BoundsBuilder::new(region, None).add_input(&a).add_input(&b).into_irect(),
        IRect::new(2, 2, 10, 5)
    );
    assert_eq!(
        BoundsBuilder::new(region, Some(IRect::new(-3, 6, 1, 7))).add_input(&a).add_input(&b).into_irect(),
        IRect::new(0, 2, 10, 7)
    );
}

#[test]
fn render_without_subregion_is_bounded_by_region_and_inputs() {
    let mut ctx = context(IRect::new(0, 0, 3, 3));
    ctx.store_result(FilterResult {
        name: Some("a".to_string()),
        output: FilterOutput { surface: flat(4, 4, 20, SurfaceType::SRgb), bounds: IRect::new(1, 1, 2, 2) },
    });
    ctx.store_result(FilterResult {
        name: Some("b".to_string()),
        output: FilterOutput { surface: flat(4, 4, 30, SurfaceType::SRgb), bounds: IRect::new(2, 0, 4, 2) },
    });
    let mut blend = Blend::new();
    blend.set_atts(&bag(&[("in", "a"), ("in2", "b"), ("mode", "lighten")])).unwrap();
    let (composite, pending) = blend.begin_render(&ctx, Some(IRect::new(0, 0, 100, 100))).unwrap();
    let expected = IRect::new(0, 0, 3, 3).intersect(&IRect::new(1, 1, 2, 2).union(&IRect::new(2, 0, 4, 2)));
    assert_eq!(expected, IRect::new(1, 0, 3, 2));
    assert_eq!(pending.bounds, expected);
    assert_eq!(pending.name, None);
    assert_eq!(pending.surface_type, SurfaceType::SRgb);
    assert_eq!(composite.clip, Some(expected));
    assert_eq!(composite.operator, Operator::Lighten);
    let source = composite.source.as_ref().unwrap();
    assert_eq!((source.x, source.y), (0, 0));
    assert_eq!(source.surface.pixels()[0].r, 20);
    assert_eq!((composite.target.width, composite.target.height), (4, 4));
    for y in 0..4usize {
        for x in 0..4usize {
            let inside = (1..3).contains(&x) && y < 2;
            assert_eq!(composite.target.pixels[y * 4 + x].r, if inside { 30 } else { 0 });
        }
    }
}

#[test]
fn render_with_declared_subregion_unites_it_with_the_inputs() {
    let mut ctx = context(IRect::new(0, 0, 4, 4));
    ctx.store_result(FilterResult {
        name: Some("a".to_string()),
        output: FilterOutput { surface: flat(4, 4, 20, SurfaceType::SRgb), bounds: IRect::new(1, 1, 2, 2) },
    });
    let mut blend = Blend::new();
    blend
        .set_atts(&bag(&[("in", "a"), ("in2", "a"), ("x", "0"), ("y", "3"), ("width", "1"), ("height", "1")]))
        .unwrap();
    let (_, pending) = blend.begin_render(&ctx, Some(IRect::new(0, 3, 1, 9))).unwrap();
    assert_eq!(pending.bounds, IRect::new(0, 1, 2, 4));
    let (_, without) = blend.begin_render(&ctx, None).unwrap();
    assert_eq!(without.bounds, IRect::new(1, 1, 2, 2));
}

#[test]
fn output_type_follows_the_input_that_has_colour() {
    let ctx = context(IRect::new(0, 0, 4, 4));
    for (first, second, expected) in [
        ("SourceAlpha", "SourceGraphic", SurfaceType::SRgb),
        ("SourceGraphic", "SourceAlpha", SurfaceType::SRgb),
        ("SourceAlpha", "BackgroundAlpha", SurfaceType::AlphaOnly),
        ("SourceGraphic", "FillPaint", SurfaceType::SRgb),
    ] {
        let mut blend = Blend::new();
        blend.set_atts(&bag(&[("in", first), ("in2", second)])).unwrap();
        assert!(blend.check_inputs_agree(&ctx));
        let (_, pending) = blend.begin_render(&ctx, None).unwrap();
        assert_eq!(pending.surface_type, expected);
    }
    assert_eq!(
        Blend::output_surface_type(SurfaceType::AlphaOnly, SurfaceType::LinearRgb),
        SurfaceType::LinearRgb
    );
    assert_eq!(
        Blend::output_surface_type(SurfaceType::LinearRgb, SurfaceType::AlphaOnly),
        SurfaceType::LinearRgb
    );
}

#[test]
fn inputs_in_different_colour_spaces_do_not_agree() {
    let mut ctx = context(IRect::new(0, 0, 4, 4));
    ctx.store_result(FilterResult {
        name: Some("lin".to_string()),
        output: FilterOutput { surface: flat(4, 4, 20, SurfaceType::LinearRgb), bounds: IRect::new(0, 0, 4, 4) },
    });
    let mut blend = Blend::new();
    blend.set_atts(&bag(&[("in", "lin"), ("in2", "SourceGraphic")])).unwrap();
    assert!(!blend.check_inputs_agree(&ctx));
    let mut unresolved = Blend::new();
    unresolved.set_atts(&bag(&[("in", "lin"), ("in2", "nowhere")])).unwrap();
    assert!(unresolved.check_inputs_agree(&ctx));
}

#[test]
fn render_fails_on_an_unknown_reference() {
    let ctx = context(IRect::new(0, 0, 4, 4));
    let mut first = Blend::new();
    first.set_atts(&bag(&[("in", "missing")])).unwrap();
    assert_eq!(first.begin_render(&ctx, None).err(), Some(FilterError::InvalidReference));
    let mut second = Blend::new();
    second.set_atts(&bag(&[("in2", "missing")])).unwrap();
    assert_eq!(second.begin_render(&ctx, None).err(), Some(FilterError::InvalidReference));
    assert_eq!(
        second.begin_render_with(&ctx, None, None).err(),
        Some(FilterError::InvalidReference)
    );
}

#[test]
fn render_without_storage_fails_with_surface_creation() {
    let ctx = context(IRect::new(0, 0, 4, 4));
    let blend = Blend::new();
    assert_eq!(
        blend.begin_render_with(&ctx, None, None).err(),
        Some(FilterError::IntermediateSurfaceCreation)
    );
    assert!(blend.begin_render_with(&ctx, None, Some(Vec::new())).is_ok());
}

#[test]
fn render_over_surfaces_without_pixels_is_prepared() {
    let ctx = FilterContext::new(
        flat(0, 0, 0, SurfaceType::SRgb),
        flat(0, 0, 0, SurfaceType::AlphaOnly),
        flat(0, 0, 0, SurfaceType::SRgb),
        flat(0, 0, 0, SurfaceType::AlphaOnly),
        flat(0, 0, 0, SurfaceType::SRgb),
        flat(0, 0, 0, SurfaceType::SRgb),
        IRect::new(0, 0, 4, 4),
    );
    let (composite, pending) = Blend::new().begin_render(&ctx, None).unwrap();
    assert!(composite.target.pixels.is_empty());
    assert_eq!((composite.target.width, composite.target.height), (0, 0));
    assert_eq!(composite.operator, Operator::Over);
    assert_eq!(pending.bounds, IRect::new(0, 0, 4, 4));
    assert!(pending.complete(composite.target).is_ok());
}

#[test]
fn complete_wraps_the_painted_surface() {
    let pending = PendingResult {
        name: Some("out".to_string()),
        bounds: IRect::new(0, 0, 2, 1),
        surface_type: SurfaceType::LinearRgb,
    };
    let pixels = vec![Pixel { r: 1, g: 2, b: 3, a: 4 }, Pixel { r: 5, g: 6, b: 7, a: 8 }];
    let result = pending.complete(BackendSurface::new(2, 1, pixels.clone())).unwrap();
    assert_eq!(result.name, Some("out".to_string()));
    assert_eq!(result.output.bounds, IRect::new(0, 0, 2, 1));
    assert_eq!(result.output.surface.surface_type(), SurfaceType::LinearRgb);
    assert_eq!(result.output.surface.pixels(), &pixels);
}

#[test]
fn complete_fails_on_a_backend_error() {
    let pending = PendingResult { name: None, bounds: IRect::new(0, 0, 2, 1), surface_type: SurfaceType::SRgb };
    assert_eq!(
        pending.complete(BackendSurface::failed(2, 1)).err(),
        Some(FilterError::BadIntermediateSurfaceStatus)
    );
}

#[test]
fn second_primitive_resolves_the_result_of_the_first() {
    let mut ctx = context(IRect::new(0, 0, 4, 4));
    let mut first = Blend::new();
    first
        .set_atts(&bag(&[("in", "SourceGraphic"), ("in2", "SourceAlpha"), ("mode", "multiply"), ("result", "a")]))
        .unwrap();
    let mut second = Blend::new();
    second.set_atts(&bag(&[("in", "a"), ("in2", "SourceGraphic"), ("mode", "screen")])).unwrap();

    assert_eq!(
        second.begin_render(&ctx, None).err(),
        Some(FilterError::InvalidReference)
    );
    assert_eq!(run(&first, &mut ctx, None), Ok(()));
    let a = Input::FilterOutput("a".to_string());
    let stored = ctx.get_input(Some(&a)).unwrap();
    assert_eq!(stored.surface.surface_type(), SurfaceType::SRgb);
    assert_eq!(value_of(stored), 2);
    assert_eq!(stored.bounds, IRect::new(0, 0, 4, 4));

    let (composite, pending) = second.begin_render(&ctx, None).unwrap();
    assert_eq!(composite.operator, Operator::Screen);
    assert_eq!(composite.source.as_ref().unwrap().surface.pixels()[0].r, 2);
    assert_eq!(composite.target.pixels[0].r, 1);
    assert_eq!(pending.surface_type, SurfaceType::SRgb);
    let result = pending.complete(paint(composite)).unwrap();
    ctx.store_result(result);
    assert_eq!(value_of(ctx.get_input(None).unwrap()), 1);
    assert_eq!(value_of(ctx.get_input(Some(&a)).unwrap()), 2);
}

#[test]
fn absent_inputs_follow_the_chain() {
    let mut ctx = context(IRect::new(0, 0, 4, 4));
    let blend = Blend::new();
    let (composite, _) = blend.begin_render(&ctx, None).unwrap();
    assert_eq!(composite.source.as_ref().unwrap().surface.pixels()[0].r, 1);
    assert_eq!(composite.target.pixels[0].r, 1);
    ctx.store_result(FilterResult {
        name: None,
        output: FilterOutput { surface: flat(4, 4, 77, SurfaceType::SRgb), bounds: IRect::new(0, 0, 4, 4) },
    });
    let (composite, _) = blend.begin_render(&ctx, None).unwrap();
    assert_eq!(composite.source.as_ref().unwrap().surface.pixels()[0].r, 77);
    assert_eq!(composite.target.pixels[0].r, 77);
}

#[test]
fn composite_starts_plain_and_narrows_its_clip() {
    let mut composite = Composite::new(BackendSurface::new(1, 1, vec![Pixel { r: 0, g: 0, b: 0, a: 0 }]));
    assert_eq!(composite.clip, None);
    assert!(composite.source.is_none());
    assert_eq!(composite.operator, Operator::Over);
    composite.clip(IRect::new(0, 0, 5, 5));
    composite.clip(IRect::new(3, -1, 9, 4));
    assert_eq!(composite.clip, Some(IRect::new(3, 0, 5, 4)));
    composite.set_operator(Operator::Exclusion);
    assert_eq!(composite.operator, Operator::Exclusion);
    flat(2, 2, 9, SurfaceType::SRgb).set_as_paint_source(&mut composite, 3, -4);
    let source = composite.source.as_ref().unwrap();
    assert_eq!((source.x, source.y), (3, -4));
    assert_eq!(source.surface.pixels().len(), 4);
}
