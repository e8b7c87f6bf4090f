//! Geometry and compositing for screen captures: rectangle arithmetic,
//! geometry strings, selection of the captured area, and masking of the
//! parts of a multi-monitor root that no screen shows.

pub mod buffer;
pub mod capture;
pub mod error;
pub mod format;
pub mod geometry;
pub mod mask;
pub mod rect;
