//! Filter-effects engine: evaluates a chain of filter primitives over raster
//! surfaces, with named-result wiring, colour-space tagging and bounds
//! propagation.
//!
//! The engine decides and the graphics backend paints. A primitive resolves
//! its inputs in the [`context`], computes the bounds and the type of its
//! output, seeds a working surface and puts a paint operation together
//! ([`composite`]); the backend paints it; the painted surface completes the
//! result, which the context stores for the primitives that follow
//! ([`filter`]). Geometry reaches the engine in pixels: lengths are read
//! here ([`length`]), and turned into pixels by whoever holds the transform.

pub mod blend;
pub mod composite;
pub mod context;
pub mod error;
pub mod filter;
pub mod input;
pub mod length;
pub mod primitive;
pub mod property_bag;
pub mod rect;
pub mod srgb;
pub mod srgb_exact;
pub mod surface;
pub mod text;
