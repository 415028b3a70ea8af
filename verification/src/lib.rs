//! Fixed-size 3-component vector and 3-by-3 matrix value types for
//! real-time graphics code: construction, component access, and
//! layout-aware indexing.
//!
//! Components are opaque 64-bit scalar words. A caller that works in
//! IEEE-754 double precision passes each component as its bit pattern
//! (`f64::to_bits`) and reads it back with `f64::from_bits`; the layout,
//! addressing and equality logic proved here never interprets the words
//! numerically, so it holds for any such encoding.

pub mod maths;
