//! A filter as a chain of primitives, run one primitive at a time.
//!
//! The backend paints between two steps of a run: a step hands out the paint
//! operation of the next primitive, the backend paints, and the painted
//! surface goes into the following step, which stores the primitive's result
//! for the primitives after it.

use crate::blend::{Blend, PendingResult};
use crate::composite::Composite;
use crate::context::{
    lemma_resolve_after_storing, FilterContext, FilterOutput, FilterResult,
};
use crate::error::{FilterError, ParseError};
use crate::input::InputView;
use crate::primitive::outcome;
use crate::property_bag::Property;
use crate::rect::IRect;
use crate::surface::BackendSurface;
use vstd::prelude::*;

verus! {

/// A filter primitive of one of the kinds that the engine renders.
#[derive(Debug)]
pub enum Primitive {
    Blend(Blend),
}

impl Primitive {
    /// What the inputs of the primitive resolve to in `ctx`, or the error of
    /// the first one that does not resolve.
    pub open spec fn inputs(&self, ctx: &FilterContext) -> Result<
        (FilterOutput, FilterOutput),
        FilterError,
    > {
        match self {
            Primitive::Blend(blend) => blend.inputs(ctx),
        }
    }

    /// Whether the inputs, where they resolve, can be combined.
    pub open spec fn inputs_agree(&self, ctx: &FilterContext) -> bool {
        match self {
            Primitive::Blend(blend) => blend.inputs_agree(ctx),
        }
    }

    /// Whether `composite` and `pending` are the render of this primitive
    /// over the inputs `first` and `second`.
    pub open spec fn renders(
        &self,
        ctx: &FilterContext,
        subregion: Option<IRect>,
        first: FilterOutput,
        second: FilterOutput,
        composite: Composite,
        pending: PendingResult,
    ) -> bool {
        match self {
            Primitive::Blend(blend) => blend.renders(
                ctx,
                subregion,
                first,
                second,
                composite,
                pending,
            ),
        }
    }

    /// Reads the attributes of the element into the primitive.
    pub fn set_atts(&mut self, pbag: &[Property]) -> (r: Result<(), ParseError>)
        ensures
            match (*old(self), *final(self)) {
                (Primitive::Blend(before), Primitive::Blend(after)) => after@
                    == before@.with_attributes(pbag@).0 && r == outcome(
                    before@.with_attributes(pbag@).1,
                ),
            },
    {
        match self {
            Primitive::Blend(blend) => blend.set_atts(pbag),
        }
    }

    pub fn check_inputs_agree(&self, ctx: &FilterContext) -> (r: bool)
        requires
            ctx.wf(),
        ensures
            r == self.inputs_agree(ctx),
    {
        match self {
            Primitive::Blend(blend) => blend.check_inputs_agree(ctx),
        }
    }

    /// Prepares the render of the primitive, whatever its kind. Fails where
    /// an input does not resolve, and where the working surface cannot be
    /// allocated; over a second input without pixels there is nothing to
    /// allocate.
    pub fn begin_render(&self, ctx: &FilterContext, subregion: Option<IRect>) -> (r: Result<
        (Composite, PendingResult),
        FilterError,
    >)
        requires
            ctx.wf(),
            self.inputs_agree(ctx),
        ensures
            match self.inputs(ctx) {
                Err(e) => r == Err::<(Composite, PendingResult), FilterError>(e),
                Ok((first, second)) => {
                    &&& second.surface@.pixels.len() == 0 ==> r is Ok
                    &&& match r {
                        Ok((composite, pending)) => self.renders(
                            ctx,
                            subregion,
                            first,
                            second,
                            composite,
                            pending,
                        ),
                        Err(e) => e == FilterError::IntermediateSurfaceCreation,
                    }
                },
            },
    {
        match self {
            Primitive::Blend(blend) => blend.begin_render(ctx, subregion),
        }
    }

    /// Whether the inputs of the primitive are to be in the colour space
    /// that the filter's colour interpolation selects.
    pub fn is_affected_by_color_interpolation_filters(&self) -> (r: bool)
        ensures
            r,
    {
        match self {
            Primitive::Blend(_) => Blend::is_affected_by_color_interpolation_filters(),
        }
    }
}

/// One application of a filter: its primitives in document order, the
/// context they share, and how far the run has come.
#[derive(Debug)]
pub struct FilterRun {
    ctx: FilterContext,
    primitives: Vec<Primitive>,
    /// The number of primitives whose result is stored.
    position: usize,
    /// What is kept of the primitive that the backend is painting.
    pending: Option<PendingResult>,
    /// The error that ended the run.
    failure: Option<FilterError>,
}

impl FilterRun {
    pub closed spec fn context(&self) -> FilterContext {
        self.ctx
    }

    pub closed spec fn primitives(&self) -> Seq<Primitive> {
        self.primitives@
    }

    /// The number of primitives whose result is stored.
    pub closed spec fn position(&self) -> int {
        self.position as int
    }

    /// What is kept of the primitive that the backend is painting, if it is
    /// painting one.
    pub closed spec fn in_flight(&self) -> Option<PendingResult> {
        self.pending
    }

    /// The error that ended the run, if one did.
    pub closed spec fn failure(&self) -> Option<FilterError> {
        self.failure
    }

    pub closed spec fn wf(&self) -> bool {
        &&& self.ctx.wf()
        &&& self.position <= self.primitives@.len()
        &&& self.pending is Some ==> self.position < self.primitives@.len() && self.failure is None
    }

    /// Whether the next primitive can be begun: the run has not failed,
    /// nothing is being painted, and a primitive is left.
    pub open spec fn ready(&self) -> bool {
        self.failure() is None && self.in_flight() is None && self.position()
            < self.primitives().len()
    }

    /// Whether every primitive has rendered.
    pub open spec fn finished(&self) -> bool {
        self.failure() is None && self.in_flight() is None && self.position()
            == self.primitives().len()
    }

    /// The primitive that is begun next, or that the backend is painting.
    pub open spec fn current(&self) -> Primitive {
        self.primitives()[self.position()]
    }

    /// Whether `next` has the context, the primitives and the position of
    /// this run.
    pub open spec fn same_progress(&self, next: FilterRun) -> bool {
        &&& next.context() == self.context()
        &&& next.primitives() == self.primitives()
        &&& next.position() == self.position()
    }

    /// Whether `next` is this run with nothing changed.
    pub open spec fn unchanged(&self, next: FilterRun) -> bool {
        &&& self.same_progress(next)
        &&& next.in_flight() == self.in_flight()
        &&& next.failure() == self.failure()
    }

    /// Whether `next` is this run ended by the error `e`.
    pub open spec fn failed_with(&self, e: FilterError, next: FilterRun) -> bool {
        &&& self.same_progress(next)
        &&& next.in_flight() is None
        &&& next.failure() == Some(e)
    }

    /// Whether `next` and `r` are what beginning the current primitive gives.
    /// An input that does not resolve ends the run with its error. Else the
    /// primitive's paint operation is handed out and its pending result kept
    /// in flight, unless the working surface cannot be allocated, which ends
    /// the run. That can happen only where the working surface has pixels.
    pub open spec fn begun(
        &self,
        subregion: Option<IRect>,
        next: FilterRun,
        r: Result<Option<Composite>, FilterError>,
    ) -> bool {
        match self.current().inputs(&self.context()) {
            Err(e) => r == Err::<Option<Composite>, FilterError>(e) && self.failed_with(e, next),
            Ok((first, second)) => match r {
                Ok(Some(composite)) => {
                    &&& self.same_progress(next)
                    &&& next.failure() is None
                    &&& next.in_flight() matches Some(pending) && self.current().renders(
                        &self.context(),
                        subregion,
                        first,
                        second,
                        composite,
                        pending,
                    )
                },
                Ok(None) => false,
                Err(e) => {
                    &&& e == FilterError::IntermediateSurfaceCreation
                    &&& second.surface@.pixels.len() > 0
                    &&& self.failed_with(e, next)
                },
            },
        }
    }

    /// Whether `next` is this run after the result that `pending` and the
    /// painted surface complete to was stored: the result is in the context,
    /// nothing is in flight, and the run has moved on by one primitive.
    pub open spec fn moved_on(
        &self,
        pending: PendingResult,
        painted: BackendSurface,
        next: FilterRun,
    ) -> bool {
        &&& next.primitives() == self.primitives()
        &&& next.position() == self.position() + 1
        &&& next.in_flight() is None
        &&& next.failure() is None
        &&& exists|result: FilterResult|
            pending.completed_by(painted, result) && self.context().after_storing(
                result,
                next.context(),
            )
    }

    /// A run of `primitives`, in this order, that has not started.
    pub fn new(ctx: FilterContext, primitives: Vec<Primitive>) -> (run: FilterRun)
        requires
            ctx.wf(),
        ensures
            run.wf(),
            run.context() == ctx,
            run.primitives() == primitives@,
            run.position() == 0,
            run.in_flight() is None,
            run.failure() is None,
    {
        FilterRun { ctx, primitives, position: 0, pending: None, failure: None }
    }

    /// The primitive to begin next, if the run is ready for one.
    pub fn upcoming(&self) -> (r: Option<&Primitive>)
        requires
            self.wf(),
        ensures
            self.ready() ==> r == Some(&self.current()),
            !self.ready() ==> r is None,
    {
        if self.failure.is_none() && self.pending.is_none() && self.position
            < self.primitives.len() {
            Some(&self.primitives[self.position])
        } else {
            None
        }
    }

    /// Whether the inputs of the upcoming primitive can be combined; true
    /// where the run is not ready for a primitive.
    pub fn check_upcoming_agrees(&self) -> (r: bool)
        requires
            self.wf(),
        ensures
            r == (self.ready() ==> self.current().inputs_agree(&self.context())),
    {
        match self.upcoming() {
            Some(primitive) => primitive.check_inputs_agree(&self.ctx),
            None => true,
        }
    }

    /// Begins the next primitive in document order and hands out its paint
    /// operation. A run that is not ready hands out nothing and stays as it
    /// is. A failure ends the run.
    pub fn begin_next(&mut self, subregion: Option<IRect>) -> (r: Result<
        Option<Composite>,
        FilterError,
    >)
        requires
            old(self).wf(),
            old(self).ready() ==> old(self).current().inputs_agree(&old(self).context()),
        ensures
            final(self).wf(),
            old(self).ready() ==> old(self).begun(subregion, *final(self), r),
            !old(self).ready() ==> r == Ok::<Option<Composite>, FilterError>(None),
            !old(self).ready() ==> old(self).unchanged(*final(self)),
    {
        if self.failure.is_none() && self.pending.is_none() && self.position
            < self.primitives.len() {
            match self.primitives[self.position].begin_render(&self.ctx, subregion) {
                Ok((composite, pending)) => {
                    self.pending = Some(pending);
                    Ok(Some(composite))
                },
                Err(e) => {
                    self.failure = Some(e);
                    Err(e)
                },
            }
        } else {
            Ok(None)
        }
    }

    /// Takes the painted working surface of the primitive in flight, stores
    /// the primitive's result and moves on to the next primitive. A surface
    /// in an error state ends the run. With nothing in flight the surface is
    /// dropped and the run stays as it is.
    pub fn painted(&mut self, surface: BackendSurface) -> (r: Result<(), FilterError>)
        requires
            old(self).wf(),
        ensures
            final(self).wf(),
            match old(self).in_flight() {
                None => r is Ok && old(self).unchanged(*final(self)),
                Some(pending) => if surface.in_error_state() {
                    &&& r == Err::<(), FilterError>(FilterError::BadIntermediateSurfaceStatus)
                    &&& old(self).failed_with(
                        FilterError::BadIntermediateSurfaceStatus,
                        *final(self),
                    )
                } else {
                    r is Ok && old(self).moved_on(pending, surface, *final(self))
                },
            },
    {
        match self.pending.take() {
            None => Ok(()),
            Some(pending) => match pending.complete(surface) {
                Ok(result) => {
                    let ghost stored = result;
                    assert(old(self).pending is Some);
                    assert(self.position < self.primitives.len());
                    let next = self.position + 1;
                    self.ctx.store_result(result);
                    self.position = next;
                    assert(pending.completed_by(surface, stored));
                    assert(old(self).context().after_storing(stored, self.context()));
                    Ok(())
                },
                Err(e) => {
                    self.failure = Some(e);
                    Err(e)
                },
            },
        }
    }

    /// Ends the run. Hands back the output of the last primitive where every
    /// primitive has rendered, and nothing where the run failed, was left
    /// before its end, or had no primitive.
    pub fn into_output(self) -> (r: Option<FilterOutput>)
        requires
            self.wf(),
        ensures
            self.finished() ==> r == self.context().last_result(),
            !self.finished() ==> r is None,
    {
        if self.failure.is_none() && self.pending.is_none() && self.position
            == self.primitives.len() {
            self.ctx.into_last_result()
        } else {
            None
        }
    }
}

/// A run that has failed is neither ready nor finished, and so is a run with
/// a primitive in flight: such runs begin no primitive and hand back no
/// output.
pub proof fn lemma_failed_run_is_over(run: FilterRun)
    ensures
        run.failure() is Some ==> !run.ready() && !run.finished(),
        run.in_flight() is Some ==> !run.ready() && !run.finished(),
        !(run.ready() && run.finished()),
{
}

/// Once a primitive's result is stored, the primitives after it resolve the
/// absent input to it, and its name, where it has one, too: to the bounds
/// and the type that were kept while the backend painted, and to the pixels
/// that the backend painted.
pub proof fn lemma_result_reaches_later_primitives(
    run: FilterRun,
    pending: PendingResult,
    painted: BackendSurface,
    next: FilterRun,
)
    requires
        run.moved_on(pending, painted, next),
    ensures
        next.context().resolve(None) matches Ok(output) && output.bounds == pending.bounds
            && output.surface@.surface_type == pending.surface_type && output.surface@.pixels
            == painted.pixels@,
        pending.name matches Some(name) ==> next.context().resolve(
            Some(InputView::FilterOutput(name@)),
        ) == next.context().resolve(None),
{
    let result = choose|result: FilterResult|
        pending.completed_by(painted, result) && run.context().after_storing(
            result,
            next.context(),
        );
    lemma_resolve_after_storing(run.context(), result, next.context(), InputView::SourceGraphic);
}

} // verus!
