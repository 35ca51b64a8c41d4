use vstd::prelude::*;
use crate::buffer::ImageData;

verus! {

/// The BT.709 luma of one pixel, truncated toward zero to an 8-bit value:
/// `0.2126 * r + 0.7152 * g + 0.0722 * b`, written over integers as
/// `(2126 * r + 7152 * g + 722 * b) / 10000` with flooring division.
pub open spec fn luma(r: u8, g: u8, b: u8) -> u8 {
    ((2126 * (r as int) + 7152 * (g as int) + 722 * (b as int)) / 10000) as u8
}

/// The grayscale image of a raw RGBA byte sequence: in every pixel the
/// red, green and blue bytes are replaced by that pixel's luma, and the
/// alpha byte is kept unchanged.
pub open spec fn gray_bytes(s: Seq<u8>) -> Seq<u8> {
    Seq::new(
        s.len(),
        |i: int|
            if i % 4 == 3 {
                s[i]
            } else {
                luma(s[4 * (i / 4)], s[4 * (i / 4) + 1], s[4 * (i / 4) + 2])
            },
    )
}

/// Converts the buffer to grayscale in place: every pixel's red, green and
/// blue channels become its truncated BT.709 luma; alpha stays untouched.
pub fn apply_grayscale(image_data: &mut ImageData)
    requires
        old(image_data).wf(),
    ensures
        final(image_data).wf(),
        final(image_data).spec_width() == old(image_data).spec_width(),
        final(image_data).spec_height() == old(image_data).spec_height(),
        final(image_data).bytes() == gray_bytes(old(image_data).bytes()),
{
    let ghost orig = old(image_data).bytes();
    let len = image_data.data_len();
    proof {
        let ghost pixels = old(image_data).spec_width() * old(image_data).spec_height();
        assert(len == pixels * 4);
        assert(len % 4 == 0) by (nonlinear_arith)
            requires
                len == pixels * 4,
        ;
    }
    let mut i: usize = 0;
    while i < len
        invariant
            len % 4 == 0,
            image_data.wf(),
            image_data.spec_width() == old(image_data).spec_width(),
            image_data.spec_height() == old(image_data).spec_height(),
            image_data.bytes().len() == len,
            orig.len() == len,
            i % 4 == 0,
            i <= len,
            forall|j: int| 0 <= j < i ==> image_data.bytes()[j] == gray_bytes(orig)[j],
            forall|j: int| i <= j < len ==> image_data.bytes()[j] == orig[j],
        decreases len - i,
    {
        assert(i + 4 <= len);
        let r = image_data.byte_at(i);
        let g = image_data.byte_at(i + 1);
        let b = image_data.byte_at(i + 2);
        let y = luma_exec(r, g, b);
        proof {
            assert(4 * ((i as int) / 4) == i as int);
        }
        image_data.set_byte(i, y);
        image_data.set_byte(i + 1, y);
        image_data.set_byte(i + 2, y);
        i = i + 4;
    }
    proof {
        assert(image_data.bytes() =~= gray_bytes(orig));
    }
}

/// The luma is a fixed point of itself: a pixel whose three color channels
/// already hold one common value keeps that value under the conversion.
pub proof fn lemma_luma_fixed_point(y: u8)
    ensures
        luma(y, y, y) == y,
{
    assert(2126 * (y as int) + 7152 * (y as int) + 722 * (y as int) == 10000 * (y as int));
    assert((10000 * (y as int)) / 10000 == y as int) by (nonlinear_arith);
}

/// Grayscale conversion is idempotent: converting an already converted
/// image changes nothing further.
pub proof fn lemma_grayscale_idempotent(s: Seq<u8>)
    requires
        s.len() % 4 == 0,
    ensures
        gray_bytes(gray_bytes(s)) == gray_bytes(s),
{
    let g = gray_bytes(s);
    assert forall|i: int| 0 <= i < g.len() implies gray_bytes(g)[i] == g[i] by {
        if i % 4 != 3 {
            let p = i / 4;
            assert(4 * p + 3 < s.len());
            assert((4 * p) / 4 == p && (4 * p) % 4 == 0);
            assert((4 * p + 1) / 4 == p && (4 * p + 1) % 4 == 1);
            assert((4 * p + 2) / 4 == p && (4 * p + 2) % 4 == 2);
            let y = luma(s[4 * p], s[4 * p + 1], s[4 * p + 2]);
            assert(g[4 * p] == y && g[4 * p + 1] == y && g[4 * p + 2] == y);
            lemma_luma_fixed_point(y);
        }
    }
    assert(gray_bytes(g) =~= g);
}

/// Grayscale conversion preserves alpha exactly: every fourth byte of the
/// image is kept as it was.
pub proof fn lemma_grayscale_preserves_alpha(s: Seq<u8>)
    ensures
        forall|i: int| 0 <= i < s.len() && i % 4 == 3 ==> #[trigger] gray_bytes(s)[i] == s[i],
{
}

/// In a grayscale image the red, green and blue bytes of the pixel with
/// index `p` hold one common value, that pixel's luma.
pub proof fn lemma_grayscale_channels_equal(s: Seq<u8>, p: int)
    requires
        0 <= p,
        4 * p + 3 < s.len(),
    ensures
        gray_bytes(s)[4 * p] == gray_bytes(s)[4 * p + 1],
        gray_bytes(s)[4 * p + 1] == gray_bytes(s)[4 * p + 2],
{
    assert((4 * p) / 4 == p && (4 * p) % 4 == 0);
    assert((4 * p + 1) / 4 == p && (4 * p + 1) % 4 == 1);
    assert((4 * p + 2) / 4 == p && (4 * p + 2) % 4 == 2);
}

/// Computes the truncated BT.709 luma of one pixel's channels.
fn luma_exec(r: u8, g: u8, b: u8) -> (y: u8)
    ensures
        y == luma(r, g, b),
{
    let sum: u32 = 2126 * (r as u32) + 7152 * (g as u32) + 722 * (b as u32);
    let y32: u32 = sum / 10000;
    proof {
        assert(sum <= 2550000);
        assert(y32 <= 255);
    }
    y32 as u8
}

} // verus!
