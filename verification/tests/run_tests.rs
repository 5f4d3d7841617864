use rsvg_filters::blend::{Blend, Mode};
use rsvg_filters::composite::{Composite, Operator};
use rsvg_filters::context::{FilterContext, FilterOutput, FilterResult};
use rsvg_filters::error::{Attribute, FilterError, ParseError};
use rsvg_filters::filter::{FilterRun, Primitive};
use rsvg_filters::property_bag::Property;
use rsvg_filters::rect::IRect;
use rsvg_filters::surface::{BackendSurface, Pixel, SharedImageSurface, SurfaceType};

fn solid(value: u8, surface_type: SurfaceType) -> SharedImageSurface {
    let pixels = vec![Pixel { r: value, g: value, b: value, a: 255 }; 6];
    SharedImageSurface::wrap(BackendSurface::new(3, 2, pixels), surface_type).unwrap()
}

fn fresh_context() -> FilterContext {
    FilterContext::new(
        solid(10, SurfaceType::SRgb),
        solid(20, SurfaceType::AlphaOnly),
        solid(30, SurfaceType::SRgb),
        solid(40, SurfaceType::AlphaOnly),
        solid(50, SurfaceType::SRgb),
        solid(60, SurfaceType::SRgb),
        IRect::new(0, 0, 3, 2),
    )
}

fn blend(pairs: &[(&str, &str)]) -> Primitive {
    let atts: Vec<Property> = pairs.iter().map(|(n, v)| Property::new(n, v)).collect();
    let mut primitive = Primitive::Blend(Blend::new());
    primitive.set_atts(&atts).unwrap();
    primitive
}

/// Stands in for the backend: adds the source's red channel to the target's.
fn add_red(composite: Composite) -> BackendSurface {
    let source = composite.source.unwrap();
    let mut target = composite.target;
    for (i, p) in target.pixels.iter_mut().enumerate() {
        p.r = p.r.wrapping_add(source.surface.pixels()[i].r);
    }
    target
}

#[test]
fn a_run_renders_primitives_in_document_order() {
    let chain = vec![
        blend(&[("in", "SourceGraphic"), ("in2", "SourceAlpha"), ("mode", "multiply"), ("result", "a")]),
        blend(&[("in", "a"), ("in2", "SourceGraphic"), ("mode", "screen")]),
        blend(&[("in2", "a")]),
    ];
    let mut run = FilterRun::new(fresh_context(), chain);
    let mut operators = Vec::new();
    let mut reds = Vec::new();
    loop {
        assert!(run.check_upcoming_agrees());
        match run.begin_next(None).unwrap() {
            Some(composite) => {
                operators.push(composite.operator);
                assert!(run.upcoming().is_none());
                let painted = add_red(composite);
                reds.push(painted.pixels[0].r);
                assert_eq!(run.painted(painted), Ok(()));
            }
            None => break,
        }
    }
    assert_eq!(operators, vec![Operator::Multiply, Operator::Screen, Operator::Over]);
    assert_eq!(reds, vec![30, 40, 70]);
    let output = run.into_output().unwrap();
    assert_eq!(output.surface.pixels()[0].r, 70);
    assert_eq!(output.bounds, IRect::new(0, 0, 3, 2));
    assert_eq!(output.surface.surface_type(), SurfaceType::SRgb);
}

#[test]
fn a_run_without_primitives_has_no_output() {
    let mut run = FilterRun::new(fresh_context(), Vec::new());
    assert!(run.upcoming().is_none());
    assert!(run.check_upcoming_agrees());
    assert!(run.begin_next(None).unwrap().is_none());
    assert!(run.into_output().is_none());
}

#[test]
fn an_invalid_reference_ends_the_run() {
    let chain = vec![
        blend(&[("in", "later"), ("result", "first")]),
        blend(&[("result", "later")]),
    ];
    let mut run = FilterRun::new(fresh_context(), chain);
    assert_eq!(run.begin_next(None).err(), Some(FilterError::InvalidReference));
    assert!(run.upcoming().is_none());
    assert!(run.begin_next(None).unwrap().is_none());
    assert!(run.into_output().is_none());
}

#[test]
fn a_backend_error_ends_the_run() {
    let chain = vec![blend(&[("result", "a")]), blend(&[("in", "a")])];
    let mut run = FilterRun::new(fresh_context(), chain);
    let composite = run.begin_next(None).unwrap().unwrap();
    let (w, h) = (composite.target.width, composite.target.height);
    assert_eq!(
        run.painted(BackendSurface::failed(w, h)),
        Err(FilterError::BadIntermediateSurfaceStatus)
    );
    assert!(run.upcoming().is_none());
    assert!(run.begin_next(None).unwrap().is_none());
    assert!(run.into_output().is_none());
}

#[test]
fn a_run_left_before_its_end_has_no_output() {
    let chain = vec![blend(&[("result", "a")]), blend(&[("in", "a")])];
    let mut run = FilterRun::new(fresh_context(), chain);
    let composite = run.begin_next(None).unwrap().unwrap();
    assert_eq!(run.painted(add_red(composite)), Ok(()));
    assert!(run.upcoming().is_some());
    assert!(run.into_output().is_none());
}

#[test]
fn a_run_in_flight_hands_out_nothing_more() {
    let chain = vec![blend(&[]), blend(&[])];
    let mut run = FilterRun::new(fresh_context(), chain);
    let first = run.begin_next(None).unwrap();
    assert!(first.is_some());
    assert!(run.begin_next(None).unwrap().is_none());
    assert_eq!(run.painted(add_red(first.unwrap())), Ok(()));
    assert!(run.begin_next(None).unwrap().is_some());
}

#[test]
fn a_surface_with_nothing_in_flight_is_dropped() {
    let mut run = FilterRun::new(fresh_context(), vec![blend(&[])]);
    assert_eq!(run.painted(BackendSurface::failed(1, 1)), Ok(()));
    assert!(run.upcoming().is_some());
    let composite = run.begin_next(None).unwrap().unwrap();
    assert_eq!(run.painted(add_red(composite)), Ok(()));
    assert_eq!(run.into_output().unwrap().surface.pixels()[0].r, 20);
}

#[test]
fn primitive_dispatches_to_its_kind() {
    let mut primitive = Primitive::Blend(Blend::new());
    assert!(primitive.is_affected_by_color_interpolation_filters());
    let bad = vec![Property::new("mode", "xyz")];
    assert_eq!(primitive.set_atts(&bad), Err(ParseError { attribute: Attribute::Mode }));
    let good = vec![Property::new("mode", "hue")];
    assert_eq!(primitive.set_atts(&good), Ok(()));
    let Primitive::Blend(blend) = &primitive;
    assert_eq!(blend.mode(), Mode::Hue);
    let ctx = fresh_context();
    assert!(primitive.check_inputs_agree(&ctx));
    let (composite, pending) = primitive.begin_render(&ctx, None).unwrap();
    assert_eq!(composite.operator, Operator::HslHue);
    assert_eq!(pending.bounds, IRect::new(0, 0, 3, 2));
}

#[test]
fn into_last_result_gives_the_latest() {
    assert!(fresh_context().into_last_result().is_none());
    let mut ctx = fresh_context();
    for (name, value) in [(Some("a"), 1u8), (Some("b"), 2), (Some("a"), 3)] {
        ctx.store_result(FilterResult {
            name: name.map(|n| n.to_string()),
            output: FilterOutput { surface: solid(value, SurfaceType::SRgb), bounds: IRect::new(0, 0, 1, 1) },
        });
    }
    assert_eq!(ctx.into_last_result().unwrap().surface.pixels()[0].r, 3);
    let mut ctx = fresh_context();
    ctx.store_result(FilterResult {
        name: None,
        output: FilterOutput { surface: solid(9, SurfaceType::SRgb), bounds: IRect::new(0, 0, 1, 1) },
    });
    assert_eq!(ctx.into_last_result().unwrap().surface.pixels()[0].r, 9);
}
