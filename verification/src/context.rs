//! The state of one filter application: the special inputs, the filter
//! region, and the results that the primitives run so far have stored.

use crate::error::FilterError;
use crate::input::{Input, InputView};
use crate::rect::IRect;
use crate::surface::SharedImageSurface;
use vstd::prelude::*;

verus! {

/// What a primitive produced: a surface, and the rectangle of it that the
/// primitive wrote.
#[derive(Debug)]
pub struct FilterOutput {
    pub surface: SharedImageSurface,
    pub bounds: IRect,
}

/// A primitive's output together with the name it declared for it, if any.
#[derive(Debug)]
pub struct FilterResult {
    pub name: Option<String>,
    pub output: FilterOutput,
}

/// The name of a result as a sequence of characters.
pub open spec fn name_view(name: Option<String>) -> Option<Seq<char>> {
    match name {
        Some(n) => Some(n@),
        None => None,
    }
}

#[derive(Debug)]
struct NamedOutput {
    name: String,
    output: FilterOutput,
}

/// Where the most recent result is kept.
#[derive(Debug)]
enum Latest {
    /// No primitive has stored a result yet.
    Nothing,
    /// The most recent result was stored without a name.
    Unnamed(FilterOutput),
    /// The most recent result is the named one at this position.
    Named(usize),
}

/// The state of one filter application.
#[derive(Debug)]
pub struct FilterContext {
    source_graphic: FilterOutput,
    source_alpha: FilterOutput,
    background_image: FilterOutput,
    background_alpha: FilterOutput,
    fill_paint: FilterOutput,
    stroke_paint: FilterOutput,
    filter_region: IRect,
    /// The named results; no name occurs twice.
    results: Vec<NamedOutput>,
    latest: Latest,
}

spec fn names_unique(results: Seq<NamedOutput>) -> bool {
    forall|i: int, j: int|
        0 <= i < results.len() && 0 <= j < results.len() && #[trigger] results[i].name@
            == #[trigger] results[j].name@ ==> i == j
}

spec fn holds_name(results: Seq<NamedOutput>, name: Seq<char>) -> bool {
    exists|i: int| 0 <= i < results.len() && #[trigger] results[i].name@ == name
}

spec fn position_of(results: Seq<NamedOutput>, name: Seq<char>) -> int {
    choose|i: int| 0 <= i < results.len() && #[trigger] results[i].name@ == name
}

impl FilterContext {
    /// The special input that a reserved token denotes; the source graphic
    /// for a reference that is no reserved token.
    pub closed spec fn standard_input(&self, token: InputView) -> FilterOutput {
        match token {
            InputView::SourceAlpha => self.source_alpha,
            InputView::BackgroundImage => self.background_image,
            InputView::BackgroundAlpha => self.background_alpha,
            InputView::FillPaint => self.fill_paint,
            InputView::StrokePaint => self.stroke_paint,
            _ => self.source_graphic,
        }
    }

    /// The rectangle within which every primitive of the filter works.
    pub closed spec fn filter_region(&self) -> IRect {
        self.filter_region
    }

    /// The named results stored so far, each under its name.
    pub closed spec fn named(&self) -> Map<Seq<char>, FilterOutput> {
        Map::new(
            |name: Seq<char>| holds_name(self.results@, name),
            |name: Seq<char>| self.results@[position_of(self.results@, name)].output,
        )
    }

    /// The most recent result stored, named or not.
    pub closed spec fn last_result(&self) -> Option<FilterOutput> {
        match self.latest {
            Latest::Nothing => None,
            Latest::Unnamed(output) => Some(output),
            Latest::Named(i) => Some(self.results@[i as int].output),
        }
    }

    /// Every surface held is well-formed, and no name is stored twice.
    pub closed spec fn wf(&self) -> bool {
        &&& self.source_graphic.surface.wf()
        &&& self.source_alpha.surface.wf()
        &&& self.background_image.surface.wf()
        &&& self.background_alpha.surface.wf()
        &&& self.fill_paint.surface.wf()
        &&& self.stroke_paint.surface.wf()
        &&& forall|i: int| 0 <= i < self.results@.len() ==> self.results@[i].output.surface.wf()
        &&& names_unique(self.results@)
        &&& match self.latest {
            Latest::Nothing => true,
            Latest::Unnamed(output) => output.surface.wf(),
            Latest::Named(i) => i < self.results@.len(),
        }
    }

    /// What an input reference resolves to. An absent reference resolves to
    /// the most recent result, and to the source graphic where there is none
    /// yet. A
    /// reserved token resolves to its special input. A name resolves to the
    /// result stored under it, and to nothing else: a name that no result was
    /// stored under is an invalid reference.
    pub open spec fn resolve(&self, input: Option<InputView>) -> Result<FilterOutput, FilterError> {
        match input {
            None => match self.last_result() {
                Some(output) => Ok(output),
                None => Ok(self.standard_input(InputView::SourceGraphic)),
            },
            Some(InputView::FilterOutput(name)) => if self.named().contains_key(name) {
                Ok(self.named()[name])
            } else {
                Err(FilterError::InvalidReference)
            },
            Some(token) => Ok(self.standard_input(token)),
        }
    }

    /// Whether `next` is this context after `result` was stored: `result` is
    /// the most recent result and, where it has a name, the result of that
    /// name; all else is as before.
    pub open spec fn after_storing(&self, result: FilterResult, next: FilterContext) -> bool {
        &&& next.last_result() == Some(result.output)
        &&& next.named() == match result.name {
            Some(name) => self.named().insert(name@, result.output),
            None => self.named(),
        }
        &&& next.filter_region() == self.filter_region()
        &&& forall|token: InputView| next.standard_input(token) == self.standard_input(token)
    }

    /// A context over the six special inputs, with no result stored. Each
    /// special input covers the whole filter region.
    pub fn new(
        source_graphic: SharedImageSurface,
        source_alpha: SharedImageSurface,
        background_image: SharedImageSurface,
        background_alpha: SharedImageSurface,
        fill_paint: SharedImageSurface,
        stroke_paint: SharedImageSurface,
        filter_region: IRect,
    ) -> (ctx: FilterContext)
        requires
            source_graphic.wf(),
            source_alpha.wf(),
            background_image.wf(),
            background_alpha.wf(),
            fill_paint.wf(),
            stroke_paint.wf(),
        ensures
            ctx.wf(),
            ctx.filter_region() == filter_region,
            ctx.named() == Map::<Seq<char>, FilterOutput>::empty(),
            ctx.last_result() is None,
            ctx.standard_input(InputView::SourceGraphic) == (FilterOutput {
                surface: source_graphic,
                bounds: filter_region,
            }),
            ctx.standard_input(InputView::SourceAlpha) == (FilterOutput {
                surface: source_alpha,
                bounds: filter_region,
            }),
            ctx.standard_input(InputView::BackgroundImage) == (FilterOutput {
                surface: background_image,
                bounds: filter_region,
            }),
            ctx.standard_input(InputView::BackgroundAlpha) == (FilterOutput {
                surface: background_alpha,
                bounds: filter_region,
            }),
            ctx.standard_input(InputView::FillPaint) == (FilterOutput {
                surface: fill_paint,
                bounds: filter_region,
            }),
            ctx.standard_input(InputView::StrokePaint) == (FilterOutput {
                surface: stroke_paint,
                bounds: filter_region,
            }),
    {
        let ctx = FilterContext {
            source_graphic: FilterOutput { surface: source_graphic, bounds: filter_region },
            source_alpha: FilterOutput { surface: source_alpha, bounds: filter_region },
            background_image: FilterOutput { surface: background_image, bounds: filter_region },
            background_alpha: FilterOutput { surface: background_alpha, bounds: filter_region },
            fill_paint: FilterOutput { surface: fill_paint, bounds: filter_region },
            stroke_paint: FilterOutput { surface: stroke_paint, bounds: filter_region },
            filter_region,
            results: Vec::new(),
            latest: Latest::Nothing,
        };
        assert(ctx.named() =~= Map::<Seq<char>, FilterOutput>::empty());
        ctx
    }

    pub fn effects_region(&self) -> (r: IRect)
        ensures
            r == self.filter_region(),
    {
        self.filter_region
    }

    /// The position of the result stored under `name`, if there is one.
    fn find(&self, name: &String) -> (r: Option<usize>)
        requires
            names_unique(self.results@),
        ensures
            match r {
                Some(i) => i < self.results@.len() && self.results@[i as int].name@ == name@
                    && self.named().contains_key(name@) && self.named()[name@]
                    == self.results@[i as int].output,
                None => !self.named().contains_key(name@) && !holds_name(self.results@, name@),
            },
    {
        let mut i: usize = 0;
        while i < self.results.len()
            invariant
                i <= self.results@.len(),
                names_unique(self.results@),
                forall|j: int| 0 <= j < i ==> self.results@[j].name@ != name@,
            decreases self.results@.len() - i,
        {
            if self.results[i].name == *name {
                proof {
                    assert(self.results@[i as int].name@ == name@);
                    assert(holds_name(self.results@, name@));
                    let k = position_of(self.results@, name@);
                    assert(self.results@[k].name@ == self.results@[i as int].name@);
                    assert(k == i);
                    assert(self.named().contains_key(name@));
                    assert(self.named()[name@] == self.results@[i as int].output);
                }
                return Some(i);
            }
            i += 1;
        }
        None
    }

    /// Resolves an input reference to the output it denotes.
    pub fn get_input(&self, input: Option<&Input>) -> (r: Result<&FilterOutput, FilterError>)
        requires
            self.wf(),
        ensures
            match (r, self.resolve(
                match input {
                    Some(i) => Some(i@),
                    None => None,
                },
            )) {
                (Ok(found), Ok(denoted)) => *found == denoted && found.surface.wf(),
                (Err(e), Err(f)) => e == f,
                _ => false,
            },
    {
        match input {
            None => match &self.latest {
                Latest::Nothing => Ok(&self.source_graphic),
                Latest::Unnamed(output) => Ok(output),
                Latest::Named(i) => Ok(&self.results[*i].output),
            },
            Some(Input::SourceGraphic) => Ok(&self.source_graphic),
            Some(Input::SourceAlpha) => Ok(&self.source_alpha),
            Some(Input::BackgroundImage) => Ok(&self.background_image),
            Some(Input::BackgroundAlpha) => Ok(&self.background_alpha),
            Some(Input::FillPaint) => Ok(&self.fill_paint),
            Some(Input::StrokePaint) => Ok(&self.stroke_paint),
            Some(Input::FilterOutput(name)) => match self.find(name) {
                Some(i) => Ok(&self.results[i].output),
                None => Err(FilterError::InvalidReference),
            },
        }
    }

    /// Gives up the context for the most recent result stored, if any.
    pub fn into_last_result(self) -> (r: Option<FilterOutput>)
        requires
            self.wf(),
        ensures
            r == self.last_result(),
    {
        let FilterContext { latest, mut results, .. } = self;
        match latest {
            Latest::Nothing => None,
            Latest::Unnamed(output) => Some(output),
            Latest::Named(i) => Some(results.swap_remove(i).output),
        }
    }

    /// Stores a primitive's result as the most recent one, and under its name
    /// where it has one. A result stored earlier under that name is replaced.
    pub fn store_result(&mut self, result: FilterResult)
        requires
            old(self).wf(),
            result.output.surface.wf(),
        ensures
            final(self).wf(),
            old(self).after_storing(result, *final(self)),
    {
        let FilterResult { name, output } = result;
        match name {
            None => {
                self.latest = Latest::Unnamed(output);
                assert(final(self).named() =~= old(self).named());
            },
            Some(name) => {
                let ghost before = self.results@;
                let ghost key = name@;
                match self.find(&name) {
                    Some(i) => {
                        self.results.set(i, NamedOutput { name, output });
                        self.latest = Latest::Named(i);
                        proof {
                            let after = self.results@;
                            assert forall|n: Seq<char>| holds_name(after, n) <==> holds_name(
                                before,
                                n,
                            ) by {
                                if holds_name(after, n) {
                                    let k = position_of(after, n);
                                    assert(before[k].name@ == n);
                                }
                                if holds_name(before, n) {
                                    let k = position_of(before, n);
                                    assert(after[k].name@ == n);
                                }
                            }
                            let updated = old(self).named().insert(key, output);
                            assert forall|n: Seq<char>| holds_name(after, n) implies after[
                                position_of(after, n)].output == updated[n] by {
                                let k = position_of(after, n);
                                let k0 = position_of(before, n);
                                assert(before[k].name@ == n);
                                assert(k == k0);
                            }
                            assert(self.named() =~= old(self).named().insert(key, output));
                        }
                    },
                    None => {
                        self.results.push(NamedOutput { name, output });
                        self.latest = Latest::Named(self.results.len() - 1);
                        proof {
                            let after = self.results@;
                            let last = after.len() - 1;
                            assert(after[last].name@ == key);
                            assert(names_unique(after)) by {
                                assert forall|i: int, j: int|
                                    0 <= i < after.len() && 0 <= j < after.len() && after[i].name@
                                        == after[j].name@ implies i == j by {
                                    if i < last && j == last {
                                        assert(before[i].name@ == key);
                                    }
                                    if j < last && i == last {
                                        assert(before[j].name@ == key);
                                    }
                                }
                            }
                            assert forall|n: Seq<char>| holds_name(after, n) <==> (n == key
                                || holds_name(before, n)) by {
                                if holds_name(after, n) {
                                    let k = position_of(after, n);
                                    if k < last {
                                        assert(before[k].name@ == n);
                                    }
                                }
                                if holds_name(before, n) {
                                    let k = position_of(before, n);
                                    assert(after[k].name@ == n);
                                }
                            }
                            let updated = old(self).named().insert(key, output);
                            assert forall|n: Seq<char>| holds_name(after, n) implies after[
                                position_of(after, n)].output == updated[n] by {
                                let k = position_of(after, n);
                                if n == key {
                                    assert(k == last);
                                } else {
                                    assert(before[k].name@ == n);
                                    let k0 = position_of(before, n);
                                    assert(after[k0].name@ == n);
                                    assert(k == k0);
                                }
                            }
                            assert(self.named() =~= old(self).named().insert(key, output));
                        }
                    },
                }
            },
        }
    }
}

/// An absent input resolves in every context: to the most recent result,
/// and to the source graphic where no result was stored yet.
pub proof fn lemma_absent_input_resolves(ctx: FilterContext)
    ensures
        ctx.resolve(None) is Ok,
        ctx.last_result() is None ==> ctx.resolve(None) == Ok::<FilterOutput, FilterError>(
            ctx.standard_input(InputView::SourceGraphic),
        ),
        ctx.last_result() matches Some(latest) ==> ctx.resolve(None) == Ok::<
            FilterOutput,
            FilterError,
        >(latest),
{
}

/// A reserved token resolves in every context, to its special input.
pub proof fn lemma_reserved_token_resolves(ctx: FilterContext, token: InputView)
    requires
        !(token is FilterOutput),
    ensures
        ctx.resolve(Some(token)) == Ok::<FilterOutput, FilterError>(ctx.standard_input(token)),
{
}

/// A name under which no result is stored is an invalid reference, and a
/// name resolves to nothing but the result stored under it.
pub proof fn lemma_name_resolves_iff_stored(ctx: FilterContext, name: Seq<char>)
    ensures
        !ctx.named().contains_key(name) ==> ctx.resolve(Some(InputView::FilterOutput(name)))
            == Err::<FilterOutput, FilterError>(FilterError::InvalidReference),
        ctx.named().contains_key(name) ==> ctx.resolve(Some(InputView::FilterOutput(name)))
            == Ok::<FilterOutput, FilterError>(ctx.named()[name]),
{
}

/// After a result is stored, its name and the absent input both resolve to
/// it. Every other name, and every reserved token, resolves as before.
pub proof fn lemma_resolve_after_storing(
    ctx: FilterContext,
    result: FilterResult,
    next: FilterContext,
    other: InputView,
)
    requires
        ctx.after_storing(result, next),
    ensures
        next.resolve(None) == Ok::<FilterOutput, FilterError>(result.output),
        result.name matches Some(name) ==> next.resolve(Some(InputView::FilterOutput(name@)))
            == Ok::<FilterOutput, FilterError>(result.output),
        !(other is FilterOutput) ==> next.resolve(Some(other)) == ctx.resolve(Some(other)),
        other matches InputView::FilterOutput(name) ==> name_view(result.name) == Some(name)
            || next.resolve(Some(other)) == ctx.resolve(Some(other)),
{
}

} // verus!
