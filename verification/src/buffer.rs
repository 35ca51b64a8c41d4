use vstd::prelude::*;
use vstd::pervasive::VecAdditionalExecFns;

verus! {

/// A sequence of `n` zero bytes: the contents of a freshly allocated buffer.
pub open spec fn zero_bytes(n: nat) -> Seq<u8> {
    Seq::new(n, |i: int| 0u8)
}

/// One RGBA8 pixel: four 8-bit channels in the order red, green, blue, alpha.
#[derive(Clone, Copy, Debug, PartialEq, Eq, Structural)]
pub struct Pixel {
    pub r: u8,
    pub g: u8,
    pub b: u8,
    pub a: u8,
}

/// A pixel buffer owning `width * height` RGBA8 pixels as one contiguous,
/// row-major byte region with no padding: exactly `width * height * 4` bytes.
pub struct ImageData {
    data: Vec<u8>,
    width: usize,
    height: usize,
}

impl ImageData {
    /// The buffer's width in pixels.
    pub closed spec fn spec_width(self) -> nat {
        self.width as nat
    }

    /// The buffer's height in pixels.
    pub closed spec fn spec_height(self) -> nat {
        self.height as nat
    }

    /// The bytes of the backing storage, row-major RGBA.
    pub closed spec fn bytes(self) -> Seq<u8> {
        self.data@
    }

    /// The buffer invariant: the storage holds exactly `width * height * 4` bytes.
    pub open spec fn wf(self) -> bool {
        self.bytes().len() == self.spec_width() * self.spec_height() * 4
    }

    /// Allocates a buffer for `width * height` RGBA8 pixels, zero-filled so
    /// that its contents are defined before the host writes them.
    pub fn new(width: usize, height: usize) -> (r: ImageData)
        requires
            width * height * 4 <= usize::MAX,
        ensures
            r.wf(),
            r.spec_width() == width,
            r.spec_height() == height,
            r.bytes() == zero_bytes((width * height * 4) as nat),
    {
        proof {
            assert(width * height <= usize::MAX) by (nonlinear_arith)
                requires
                    width * height * 4 <= usize::MAX,
            ;
        }
        let count: usize = width * height * 4;
        ImageData { data: zero_vec(count), width, height }
    }

    /// The buffer's width in pixels.
    pub fn width(&self) -> (r: usize)
        ensures
            r == self.spec_width(),
    {
        self.width
    }

    /// The buffer's height in pixels.
    pub fn height(&self) -> (r: usize)
        ensures
            r == self.spec_height(),
    {
        self.height
    }

    /// The raw view over the backing storage: a borrow of the byte region
    /// the host reads pixel data from. Its length is always exactly
    /// `width * height * 4` bytes.
    pub fn data(&self) -> (r: &Vec<u8>)
        ensures
            r@ == self.bytes(),
            self.wf() ==> r@.len() == self.spec_width() * self.spec_height() * 4,
    {
        &self.data
    }

    /// Builds a buffer of the given geometry directly around a byte vector
    /// that already holds its pixel data.
    pub(crate) fn from_bytes(width: usize, height: usize, bytes: Vec<u8>) -> (r: ImageData)
        requires
            bytes@.len() == width * height * 4,
        ensures
            r.wf(),
            r.spec_width() == width,
            r.spec_height() == height,
            r.bytes() == bytes@,
    {
        ImageData { data: bytes, width, height }
    }

    /// The number of bytes in the backing storage.
    pub(crate) fn data_len(&self) -> (r: usize)
        ensures
            r == self.bytes().len(),
    {
        self.data.len()
    }

    /// Reads one byte of the backing storage.
    pub(crate) fn byte_at(&self, i: usize) -> (r: u8)
        requires
            i < self.bytes().len(),
        ensures
            r == self.bytes()[i as int],
    {
        self.data[i]
    }

    /// Overwrites one byte of the backing storage; the geometry is unchanged.
    pub(crate) fn set_byte(&mut self, i: usize, v: u8)
        requires
            i < old(self).bytes().len(),
        ensures
            final(self).spec_width() == old(self).spec_width(),
            final(self).spec_height() == old(self).spec_height(),
            final(self).bytes() == old(self).bytes().update(i as int, v),
            old(self).wf() ==> final(self).wf(),
    {
        self.data.set(i, v);
    }

    /// Replaces the whole contents of the backing storage: how the host
    /// writes pixel data in. The byte count must match the buffer geometry.
    pub fn set_bytes(&mut self, bytes: Vec<u8>)
        requires
            old(self).wf(),
            bytes@.len() == old(self).bytes().len(),
        ensures
            final(self).wf(),
            final(self).spec_width() == old(self).spec_width(),
            final(self).spec_height() == old(self).spec_height(),
            final(self).bytes() == bytes@,
    {
        self.data = bytes;
    }
}

/// Allocates a vector of `n` zero bytes.
fn zero_vec(n: usize) -> (r: Vec<u8>)
    ensures
        r@ == zero_bytes(n as nat),
{
    let mut v: Vec<u8> = Vec::new();
    let mut i: usize = 0;
    while i < n
        invariant
            i <= n,
            v@.len() == i,
            forall|j: int| 0 <= j < i ==> v@[j] == 0u8,
        decreases n - i,
    {
        v.push(0u8);
        i = i + 1;
    }
    proof {
        assert(v@ =~= zero_bytes(n as nat));
    }
    v
}

} // verus!
