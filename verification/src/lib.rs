//! Golden-file comparison engine for geospatial raster datasets.
//!
//! Given a reference ("golden") raster and a candidate ("new") raster, the
//! comparators decide whether the candidate is structurally and
//! geographically equivalent to the reference: same affine georeferencing
//! transform, equivalent spatial-reference description (possibly under a
//! different textual encoding), and the same per-band structure (band count,
//! raster size, pixel type, block tiling).
//!
//! The comparators are pure functions over read-only snapshots of already
//! opened datasets; opening raster files and parsing spatial-reference text
//! are the business of an external raster library, whose answers enter here
//! as plain values.

pub mod bands;
pub mod geotransform;
pub mod projection;
