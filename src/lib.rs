//! Integer core of an image recoloring engine: the spatial colour histogram
//! that palette extraction clusters, the coarse lookup grid that colour
//! transfer fills and interpolates, the layout of the blending system, and
//! the checks on palettes and seeds.
pub mod blend;
pub mod config;
pub mod error;
pub mod histogram;
pub mod lut;
pub mod palette;
