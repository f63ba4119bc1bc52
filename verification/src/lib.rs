//! Core of a small ray-casting renderer and its benchmark harness.
//!
//! The library holds the parts that are stated and proved exactly: the pixel
//! buffer and its plain-text image serialization, the image-size arithmetic,
//! and the benchmark harness that partitions passes into warm-up, sequential
//! and parallel phases and aggregates their timings. The floating-point ray
//! geometry (vectors, camera, sphere intersection, shading) lives in the
//! surrounding application, which feeds quantized colors and elapsed
//! nanoseconds into this crate.

pub mod bench;
pub mod image;
pub mod text;
