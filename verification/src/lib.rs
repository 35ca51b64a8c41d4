//! A small image-processing core for raw RGBA8 pixel buffers.
//!
//! The host allocates an [`ImageData`] buffer, fills its bytes through the
//! raw view, and then applies transforms: an in-place grayscale conversion
//! and a Lanczos resize that returns a freshly allocated buffer.

mod buffer;
mod grayscale;
mod resample;

pub use buffer::ImageData;
pub use buffer::Pixel;
pub use buffer::zero_bytes;
pub use grayscale::apply_grayscale;
pub use grayscale::gray_bytes;
pub use grayscale::luma;
pub use grayscale::lemma_grayscale_channels_equal;
pub use grayscale::lemma_grayscale_idempotent;
pub use grayscale::lemma_grayscale_preserves_alpha;
pub use grayscale::lemma_luma_fixed_point;
pub use resample::apply_lanczos3;
pub use resample::lanczos3_of;
pub use resample::lemma_resize_deterministic;
pub use resample::resize_spec;
pub use resample::test_lanczos3;
