//! Dense stereo disparity estimation by windowed zero-mean normalized
//! cross-correlation (ZNCC) over a bounded search range.
//!
//! Pixel samples are the bit patterns of IEEE-754 single-precision values,
//! carried as `u32`; the arithmetic is done in software behind the trusted
//! kernel in [`fbits`], and every contract states the exact bit pattern a
//! computation returns.
pub mod fbits;
pub mod grid;
pub mod stats;
pub mod zncc;
pub mod dispmap;
pub mod resize;

pub use grid::Pixels;
pub use resize::resize_pixels;
pub use dispmap::best_disp_map;
pub use dispmap::best_disp_map_seq;
pub use dispmap::best_disp_map_bands;
pub use zncc::zncc_window;
pub use zncc::best_zncc;
pub use stats::mean_window;
pub use stats::energy_norm_window;
pub use stats::mean_filter;
pub use stats::energy_norm_filter;
