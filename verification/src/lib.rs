//! Pixel-level dissimilarity between two raster images.
//!
//! Two encoded images are decoded to RGB rasters, the second is brought to the
//! dimensions of the first, and the share of pixel positions whose colours lie
//! further apart than a fixed tolerance is reported as an exact fraction.

pub mod color;
pub mod compare;
pub mod decode;
pub mod diff;
pub mod raster;
pub mod ratio;
pub mod reconcile;

pub use color::Rgb;
pub use compare::{calculate_pixel_diff, compare_decoded, compare_rasters, DiffError};
pub use decode::{accept_decoded, load_image, DecodeError};
pub use diff::compute_diff;
pub use raster::Raster;
pub use ratio::DiffRatio;
pub use reconcile::reconcile;
