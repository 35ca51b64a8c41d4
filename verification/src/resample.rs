use vstd::prelude::*;
use crate::buffer::{ImageData, zero_bytes};

verus! {

/// The bytes that a Lanczos-3 separable resampling of a `w` by `h` RGBA8
/// image to `nw` by `nh` pixels produces. The resampling is a pure function
/// of the source bytes and the four dimensions; its value is fixed by the
/// resampling engine and is not spelled out here.
pub uninterp spec fn lanczos3_of(s: Seq<u8>, w: nat, h: nat, nw: nat, nh: nat) -> Seq<u8>;

/// What a resize of a `w` by `h` source to `nw` by `nh` returns: the
/// Lanczos-3 resampling when every dimension is positive, and otherwise a
/// zero-filled buffer of the target geometry. The latter is the single
/// degenerate-geometry policy, applied alike to both axes and to an empty
/// source.
pub open spec fn resize_spec(s: Seq<u8>, w: nat, h: nat, nw: nat, nh: nat) -> Seq<u8> {
    if w > 0 && h > 0 && nw > 0 && nh > 0 {
        lanczos3_of(s, w, h, nw, nh)
    } else {
        zero_bytes(nw * nh * 4)
    }
}

/// Relies on `image::imageops::resize` with `FilterType::Lanczos3`: on a
/// non-empty source whose byte length matches its dimensions it returns the
/// Lanczos-3 resampling, an RGBA8 buffer of exactly `nw * nh * 4` bytes,
/// computed from the arguments alone. `ImageBuffer::from_raw` accepts the
/// buffer because its length is exactly `w * h * 4`.
#[verifier::external_body]
fn lanczos3_raw(s: &Vec<u8>, w: u32, h: u32, nw: u32, nh: u32) -> (r: Vec<u8>)
    requires
        s@.len() == w * h * 4,
        w > 0,
        h > 0,
        nw > 0,
        nh > 0,
        nw * nh * 4 <= usize::MAX,
        w * nh * 4 <= usize::MAX,
    ensures
        r@.len() == nw * nh * 4,
        r@ == lanczos3_of(s@, w as nat, h as nat, nw as nat, nh as nat),
{
    let img: image::ImageBuffer<image::Rgba<u8>, &[u8]> =
        image::ImageBuffer::from_raw(w, h, s.as_slice()).unwrap();
    let res = image::imageops::resize(&img, nw, nh, image::imageops::FilterType::Lanczos3);
    res.into_raw()
}

/// Resizes the source buffer to `new_width` by `new_height` pixels with
/// separable Lanczos-3 resampling, returning a newly allocated buffer and
/// leaving the source untouched. Degenerate geometry (a zero target
/// dimension, or an empty source) yields a zero-filled buffer of the target
/// geometry; the policy does not vary by axis.
pub fn apply_lanczos3(image_data: &ImageData, new_width: u32, new_height: u32) -> (r: ImageData)
    requires
        image_data.wf(),
        image_data.spec_width() <= u32::MAX,
        image_data.spec_height() <= u32::MAX,
        new_width * new_height * 4 <= usize::MAX,
        image_data.spec_width() * new_height * 4 <= usize::MAX,
    ensures
        r.wf(),
        r.spec_width() == new_width,
        r.spec_height() == new_height,
        r.bytes().len() == new_width * new_height * 4,
        r.bytes() == resize_spec(
            image_data.bytes(),
            image_data.spec_width(),
            image_data.spec_height(),
            new_width as nat,
            new_height as nat,
        ),
{
    let width = image_data.width() as u32;
    let height = image_data.height() as u32;
    if width > 0 && height > 0 && new_width > 0 && new_height > 0 {
        let out = lanczos3_raw(image_data.data(), width, height, new_width, new_height);
        ImageData::from_bytes(new_width as usize, new_height as usize, out)
    } else {
        ImageData::new(new_width as usize, new_height as usize)
    }
}

/// Produces a lossy round-tripped image for resampling quality tests:
/// resamples the source up (or down) to `upscale_width` by `upscale_height`
/// pixels, then resamples that intermediate back to the source's own
/// geometry, so the result always has the source's dimensions. The host
/// picks the intermediate geometry from its chosen ratio as
/// `floor(width * ratio)` by `floor(height * ratio)`.
pub fn test_lanczos3(image_data: &ImageData, upscale_width: u32, upscale_height: u32) -> (r: ImageData)
    requires
        image_data.wf(),
        image_data.spec_width() <= u32::MAX,
        image_data.spec_height() <= u32::MAX,
        upscale_width * upscale_height * 4 <= usize::MAX,
        image_data.spec_width() * upscale_height * 4 <= usize::MAX,
        upscale_width * image_data.spec_height() * 4 <= usize::MAX,
    ensures
        r.wf(),
        r.spec_width() == image_data.spec_width(),
        r.spec_height() == image_data.spec_height(),
        r.bytes() == resize_spec(
            resize_spec(
                image_data.bytes(),
                image_data.spec_width(),
                image_data.spec_height(),
                upscale_width as nat,
                upscale_height as nat,
            ),
            upscale_width as nat,
            upscale_height as nat,
            image_data.spec_width(),
            image_data.spec_height(),
        ),
{
    // A buffer's byte count is its storage vector's length, so the source
    // geometry in bytes fits usize and the way back is allocatable.
    let len = image_data.data_len();
    proof {
        assert(image_data.spec_width() * image_data.spec_height() * 4 == len);
    }
    let width = image_data.width() as u32;
    let height = image_data.height() as u32;
    let upscaled = apply_lanczos3(image_data, upscale_width, upscale_height);
    apply_lanczos3(&upscaled, width, height)
}

/// Resampling is deterministic: byte-identical inputs under identical
/// geometry yield a byte-identical output.
pub proof fn lemma_resize_deterministic(a: Seq<u8>, b: Seq<u8>, w: nat, h: nat, nw: nat, nh: nat)
    requires
        a == b,
    ensures
        resize_spec(a, w, h, nw, nh) == resize_spec(b, w, h, nw, nh),
{
}

} // verus!
