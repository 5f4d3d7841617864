//! Raster surfaces: the backend's working surfaces and the immutable,
//! colour-space-tagged surfaces that filter primitives read and produce.
//!
//! Pixels are stored row by row: the pixel at column `x`, row `y` of a surface
//! `width` pixels wide is at index `y * width + x`.

use crate::error::FilterError;
use crate::rect::IRect;
use crate::srgb::{
    coarse_when_decoded, lemma_decode_then_encode, lemma_encode_then_decode, linearize,
    linearized, unlinearize, unlinearized, within_one,
};
use std::rc::Rc;
use vstd::prelude::*;

verus! {

/// One pixel: three colour channels, not multiplied by alpha, and alpha.
#[derive(Clone, Copy, Debug, PartialEq, Eq, Structural)]
pub struct Pixel {
    pub r: u8,
    pub g: u8,
    pub b: u8,
    pub a: u8,
}

/// How the colour channels of a surface are to be read.
#[derive(Clone, Copy, Debug, PartialEq, Eq, Structural)]
pub enum SurfaceType {
    /// Colour channels are sRGB-encoded.
    SRgb,
    /// Colour channels are linear-light.
    LinearRgb,
    /// Only alpha was ever written; the colour channels mean nothing.
    AlphaOnly,
}

/// Whether the backend reports a surface as usable.
#[derive(Clone, Copy, Debug, PartialEq, Eq, Structural)]
pub enum BackendStatus {
    Success,
    Failed,
}

pub open spec fn transparent() -> Pixel {
    Pixel { r: 0, g: 0, b: 0, a: 0 }
}

pub open spec fn linearized_pixel(p: Pixel) -> Pixel {
    Pixel { r: linearized(p.r), g: linearized(p.g), b: linearized(p.b), a: p.a }
}

pub open spec fn unlinearized_pixel(p: Pixel) -> Pixel {
    Pixel { r: unlinearized(p.r), g: unlinearized(p.g), b: unlinearized(p.b), a: p.a }
}

/// The pixels of `pixels`, a buffer `width` wide, with every pixel outside
/// `bounds` made transparent.
pub open spec fn restricted(pixels: Seq<Pixel>, width: int, bounds: IRect) -> Seq<Pixel> {
    Seq::new(
        pixels.len(),
        |i: int|
            if bounds.contains(i % width, i / width) {
                pixels[i]
            } else {
                transparent()
            },
    )
}

/// What a surface holds, as plain values.
pub struct SurfaceView {
    pub width: int,
    pub height: int,
    pub pixels: Seq<Pixel>,
    pub surface_type: SurfaceType,
}

/// A surface as the graphics backend hands it over or takes it: dimensions,
/// a pixel buffer and the backend's status.
#[derive(Debug)]
pub struct BackendSurface {
    pub width: u32,
    pub height: u32,
    pub pixels: Vec<Pixel>,
    pub status: BackendStatus,
}

impl BackendSurface {
    /// A surface is in an error state when the backend says so, or when its
    /// buffer does not hold one pixel for each position.
    pub open spec fn in_error_state(&self) -> bool {
        self.status != BackendStatus::Success || self.pixels@.len() != self.width * self.height
    }

    /// A surface in good standing over the given buffer.
    pub fn new(width: u32, height: u32, pixels: Vec<Pixel>) -> (s: BackendSurface)
        ensures
            s.width == width,
            s.height == height,
            s.pixels == pixels,
            s.status == BackendStatus::Success,
    {
        BackendSurface { width, height, pixels, status: BackendStatus::Success }
    }

    /// A surface that the backend has given up on.
    pub fn failed(width: u32, height: u32) -> (s: BackendSurface)
        ensures
            s.width == width,
            s.height == height,
            s.pixels@.len() == 0,
            s.status == BackendStatus::Failed,
            s.in_error_state(),
    {
        BackendSurface { width, height, pixels: Vec::new(), status: BackendStatus::Failed }
    }

    pub fn is_in_error_state(&self) -> (r: bool)
        ensures
            r == self.in_error_state(),
    {
        match self.status {
            BackendStatus::Failed => true,
            BackendStatus::Success => {
                assert(self.width * self.height <= u128::MAX) by (nonlinear_arith)
                    requires
                        self.width <= u32::MAX,
                        self.height <= u32::MAX,
                ;
                self.pixels.len() as u128 != (self.width as u128) * (self.height as u128)
            },
        }
    }
}

/// An immutable surface tagged with the way its colour channels are to be
/// read. Its buffer always holds one pixel for each position. Copies of a
/// surface share one buffer; an operation that changes pixels fills a buffer
/// of its own.
#[derive(Debug)]
pub struct SharedImageSurface {
    width: u32,
    height: u32,
    pixels: Rc<Vec<Pixel>>,
    surface_type: SurfaceType,
}

/// Another handle on the buffer behind `buffer`, by `Rc::clone`: the new
/// handle points to the same allocation, so it holds the same pixels.
#[verifier::external_body]
fn share(buffer: &Rc<Vec<Pixel>>) -> (r: Rc<Vec<Pixel>>)
    ensures
        r == *buffer,
{
    Rc::clone(buffer)
}

impl View for SharedImageSurface {
    type V = SurfaceView;

    closed spec fn view(&self) -> SurfaceView {
        SurfaceView {
            width: self.width as int,
            height: self.height as int,
            pixels: self.pixels@,
            surface_type: self.surface_type,
        }
    }
}

/// Empty storage with room for `len` pixels. No pixels need no room, so
/// nothing is asked of the allocator and the storage is always there. For
/// more pixels the allocator decides: `None` where it has no room to give.
pub(crate) fn allocate_pixels(len: usize) -> (r: Option<Vec<Pixel>>)
    ensures
        len == 0 ==> r is Some,
        r matches Some(v) ==> v@.len() == 0,
{
    let mut v: Vec<Pixel> = Vec::new();
    if len == 0 {
        return Some(v);
    }
    match v.try_reserve(len) {
        Ok(_) => Some(v),
        Err(_) => None,
    }
}

impl SharedImageSurface {
    /// One pixel for each position, and dimensions that a backend accepts.
    pub open spec fn wf(&self) -> bool {
        &&& 0 <= self@.width <= u32::MAX
        &&& 0 <= self@.height <= u32::MAX
        &&& self@.pixels.len() == self@.width * self@.height
    }

    /// Takes a backend surface over as an immutable surface of the declared
    /// type. Fails where the backend surface is in an error state.
    pub fn wrap(backend: BackendSurface, declared: SurfaceType) -> (r: Result<
        SharedImageSurface,
        FilterError,
    >)
        ensures
            backend.in_error_state() ==> r == Err::<SharedImageSurface, FilterError>(
                FilterError::BadIntermediateSurfaceStatus,
            ),
            !backend.in_error_state() ==> r is Ok && r->Ok_0.wf() && r->Ok_0@ == (SurfaceView {
                width: backend.width as int,
                height: backend.height as int,
                pixels: backend.pixels@,
                surface_type: declared,
            }),
    {
        if backend.is_in_error_state() {
            Err(FilterError::BadIntermediateSurfaceStatus)
        } else {
            Ok(
                SharedImageSurface {
                    width: backend.width,
                    height: backend.height,
                    pixels: Rc::new(backend.pixels),
                    surface_type: declared,
                },
            )
        }
    }

    pub fn width(&self) -> (w: u32)
        ensures
            w == self@.width,
    {
        self.width
    }

    pub fn height(&self) -> (h: u32)
        ensures
            h == self@.height,
    {
        self.height
    }

    pub fn surface_type(&self) -> (t: SurfaceType)
        ensures
            t == self@.surface_type,
    {
        self.surface_type
    }

    /// Whether only the alpha channel of this surface was ever written.
    pub fn is_alpha_only(&self) -> (r: bool)
        ensures
            r == (self@.surface_type == SurfaceType::AlphaOnly),
    {
        match self.surface_type {
            SurfaceType::AlphaOnly => true,
            _ => false,
        }
    }

    /// The pixel buffer, row by row.
    pub fn pixels(&self) -> (p: &Vec<Pixel>)
        ensures
            p@ == self@.pixels,
    {
        &self.pixels
    }

    /// A copy of this surface, on the same buffer.
    pub fn duplicate(&self) -> (r: SharedImageSurface)
        ensures
            r == *self,
    {
        SharedImageSurface {
            width: self.width,
            height: self.height,
            pixels: share(&self.pixels),
            surface_type: self.surface_type,
        }
    }

    /// Fills `buffer` with this surface's pixels inside `bounds` and with
    /// transparent pixels outside, as a working surface of the same size.
    /// Without a buffer there is no surface.
    pub fn copy_region_with(&self, bounds: IRect, buffer: Option<Vec<Pixel>>) -> (r: Result<
        BackendSurface,
        FilterError,
    >)
        requires
            self.wf(),
        ensures
            buffer is None ==> r == Err::<BackendSurface, FilterError>(
                FilterError::IntermediateSurfaceCreation,
            ),
            buffer is Some ==> r is Ok && self.copied_to(bounds, r->Ok_0),
    {
        match buffer {
            None => Err(FilterError::IntermediateSurfaceCreation),
            Some(mut out) => {
                out.clear();
                let n = self.pixels.len();
                let w: usize = self.width as usize;
                let mut i: usize = 0;
                while i < n
                    invariant
                        i <= n,
                        n == self.pixels@.len(),
                        w == self.width,
                        self.wf(),
                        out@.len() == i,
                        forall|j: int|
                            0 <= j < i ==> out@[j] == restricted(
                                self.pixels@,
                                w as int,
                                bounds,
                            )[j],
                    decreases n - i,
                {
                    assert(w > 0) by (nonlinear_arith)
                        requires
                            i < self.width * self.height,
                            w == self.width,
                    ;
                    let p = if bounds.covers(i % w, i / w) {
                        self.pixels[i]
                    } else {
                        Pixel { r: 0, g: 0, b: 0, a: 0 }
                    };
                    out.push(p);
                    i += 1;
                }
                assert(out@ =~= restricted(self.pixels@, w as int, bounds));
                Ok(
                    BackendSurface {
                        width: self.width,
                        height: self.height,
                        pixels: out,
                        status: BackendStatus::Success,
                    },
                )
            },
        }
    }

    /// Whether `copy` is a working surface of this surface's size that holds
    /// this surface's pixels inside `bounds` and transparent pixels outside.
    pub open spec fn copied_to(&self, bounds: IRect, copy: BackendSurface) -> bool {
        &&& copy.width == self@.width
        &&& copy.height == self@.height
        &&& copy.status == BackendStatus::Success
        &&& copy.pixels@ == restricted(self@.pixels, self@.width, bounds)
        &&& !copy.in_error_state()
    }

    /// A working surface of the same size with this surface's pixels inside
    /// `bounds` and transparent pixels outside. Fails where the storage for
    /// it cannot be allocated; a surface without pixels needs none, so the
    /// copy of one is always there.
    pub fn copy_region(&self, bounds: IRect) -> (r: Result<BackendSurface, FilterError>)
        requires
            self.wf(),
        ensures
            self@.pixels.len() == 0 ==> r is Ok,
            r matches Ok(copy) ==> self.copied_to(bounds, copy),
            r matches Err(e) ==> e == FilterError::IntermediateSurfaceCreation,
    {
        let buffer = allocate_pixels(self.pixels.len());
        self.copy_region_with(bounds, buffer)
    }

    /// This surface with its colour channels in linear light. A surface that
    /// is linear already, or that holds alpha only, comes back unchanged.
    pub fn to_linear_rgb(&self) -> (r: SharedImageSurface)
        requires
            self.wf(),
        ensures
            r.wf(),
            r@.width == self@.width,
            r@.height == self@.height,
            self@.surface_type == SurfaceType::SRgb ==> r@.surface_type == SurfaceType::LinearRgb
                && r@.pixels == self@.pixels.map_values(|p: Pixel| linearized_pixel(p)),
            self@.surface_type != SurfaceType::SRgb ==> r@ == self@,
    {
        match self.surface_type {
            SurfaceType::SRgb => {
                let n = self.pixels.len();
                let mut out: Vec<Pixel> = Vec::with_capacity(n);
                let mut i: usize = 0;
                while i < n
                    invariant
                        i <= n,
                        n == self.pixels@.len(),
                        out@.len() == i,
                        forall|j: int|
                            0 <= j < i ==> out@[j] == linearized_pixel(self.pixels@[j]),
                    decreases n - i,
                {
                    let p = self.pixels[i];
                    out.push(
                        Pixel { r: linearize(p.r), g: linearize(p.g), b: linearize(p.b), a: p.a },
                    );
                    i += 1;
                }
                assert(out@ =~= self.pixels@.map_values(|p: Pixel| linearized_pixel(p)));
                SharedImageSurface {
                    width: self.width,
                    height: self.height,
                    pixels: Rc::new(out),
                    surface_type: SurfaceType::LinearRgb,
                }
            },
            _ => self.duplicate(),
        }
    }

    /// This surface with its colour channels sRGB-encoded. A surface that is
    /// encoded already, or that holds alpha only, comes back unchanged.
    pub fn to_srgb(&self) -> (r: SharedImageSurface)
        requires
            self.wf(),
        ensures
            r.wf(),
            r@.width == self@.width,
            r@.height == self@.height,
            self@.surface_type == SurfaceType::LinearRgb ==> r@.surface_type == SurfaceType::SRgb
                && r@.pixels == self@.pixels.map_values(|p: Pixel| unlinearized_pixel(p)),
            self@.surface_type != SurfaceType::LinearRgb ==> r@ == self@,
    {
        match self.surface_type {
            SurfaceType::LinearRgb => {
                let n = self.pixels.len();
                let mut out: Vec<Pixel> = Vec::with_capacity(n);
                let mut i: usize = 0;
                while i < n
                    invariant
                        i <= n,
                        n == self.pixels@.len(),
                        out@.len() == i,
                        forall|j: int|
                            0 <= j < i ==> out@[j] == unlinearized_pixel(self.pixels@[j]),
                    decreases n - i,
                {
                    let p = self.pixels[i];
                    out.push(
                        Pixel {
                            r: unlinearize(p.r),
                            g: unlinearize(p.g),
                            b: unlinearize(p.b),
                            a: p.a,
                        },
                    );
                    i += 1;
                }
                assert(out@ =~= self.pixels@.map_values(|p: Pixel| unlinearized_pixel(p)));
                SharedImageSurface {
                    width: self.width,
                    height: self.height,
                    pixels: Rc::new(out),
                    surface_type: SurfaceType::SRgb,
                }
            },
            _ => self.duplicate(),
        }
    }
}

/// Restricting to one rectangle and then to another is restricting to the
/// pixels that both cover.
pub proof fn lemma_restricted_twice(pixels: Seq<Pixel>, width: int, a: IRect, b: IRect)
    ensures
        restricted(restricted(pixels, width, a), width, b) == restricted(
            pixels,
            width,
            a.intersection(b),
        ),
{
    assert(restricted(restricted(pixels, width, a), width, b) =~= restricted(
        pixels,
        width,
        a.intersection(b),
    ));
}

/// Restricting to a rectangle that covers the whole surface changes nothing.
pub proof fn lemma_restricted_to_all(pixels: Seq<Pixel>, width: int, height: int, bounds: IRect)
    requires
        0 < width,
        0 <= height,
        pixels.len() == width * height,
        bounds.x0 <= 0,
        bounds.y0 <= 0,
        width <= bounds.x1,
        height <= bounds.y1,
    ensures
        restricted(pixels, width, bounds) == pixels,
{
    assert forall|i: int| 0 <= i < pixels.len() implies #[trigger] restricted(
        pixels,
        width,
        bounds,
    )[i] == pixels[i] by {
        assert(0 <= i % width < width && 0 <= i / width < height) by (nonlinear_arith)
            requires
                0 <= i < width * height,
                0 < width,
        ;
    }
    assert(restricted(pixels, width, bounds) =~= pixels);
}

/// Converting a pixel to linear light and back, or the other way round,
/// keeps alpha. From linear light it moves no colour channel by more than
/// one step; from sRGB it moves none by more than one step that the decoded
/// table is not coarse at.
pub proof fn lemma_pixel_round_trip(p: Pixel)
    ensures
        linearized_pixel(unlinearized_pixel(p)).a == p.a,
        unlinearized_pixel(linearized_pixel(p)).a == p.a,
        within_one(linearized_pixel(unlinearized_pixel(p)).r, p.r),
        within_one(linearized_pixel(unlinearized_pixel(p)).g, p.g),
        within_one(linearized_pixel(unlinearized_pixel(p)).b, p.b),
        !coarse_when_decoded(p.r) ==> within_one(unlinearized_pixel(linearized_pixel(p)).r, p.r),
        !coarse_when_decoded(p.g) ==> within_one(unlinearized_pixel(linearized_pixel(p)).g, p.g),
        !coarse_when_decoded(p.b) ==> within_one(unlinearized_pixel(linearized_pixel(p)).b, p.b),
{
    lemma_encode_then_decode(p.r);
    lemma_encode_then_decode(p.g);
    lemma_encode_then_decode(p.b);
    if !coarse_when_decoded(p.r) {
        lemma_decode_then_encode(p.r);
    }
    if !coarse_when_decoded(p.g) {
        lemma_decode_then_encode(p.g);
    }
    if !coarse_when_decoded(p.b) {
        lemma_decode_then_encode(p.b);
    }
}

} // verus!
