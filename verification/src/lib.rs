//! The discrete core of a small offline ray tracer.
//!
//! Everything that a render decides by counting, indexing and ordering lives
//! here and is proved; the arithmetic on fractional numbers stays with the
//! caller, who hands its results over as bit patterns.
//!
//! - [`scalar`] and [`interval`]: the order of single-precision numbers, and
//!   the open range in which a hit counts.
//! - [`intersect`]: the verdict on a ray and a triangle, given the solution of
//!   their system.
//! - [`scene`] and [`nearest`]: surfaces that can be hit, collections of
//!   them, and the rule by which the nearest hit wins.
//! - [`mesh`], [`icosahedron`], [`subdivision`] and [`sphere`]: the
//!   connectivity of the procedural meshes.
//! - [`job`] and [`scheduler`]: trace jobs, the bounce limit, and the books
//!   that keep every pixel in one hand at a time.
//! - [`pixel`], [`image`] and [`decimal`]: the output buffer and its
//!   plain-text file format.

pub mod decimal;
pub mod icosahedron;
pub mod image;
pub mod intersect;
pub mod interval;
pub mod job;
pub mod mesh;
pub mod nearest;
pub mod pixel;
pub mod scalar;
pub mod scene;
pub mod scheduler;
pub mod sphere;
pub mod subdivision;
