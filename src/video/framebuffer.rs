use vstd::prelude::*;

use crate::via::interrupts::{bit_set, lemma_shift_bit};

verus! {

/// A colour for a set bit.
pub const PIXEL_ON: u32 = 0xffffffff;

/// A colour for a clear bit.
pub const PIXEL_OFF: u32 = 0x00000000;

/// The colour of pixel `n` of a row of eight, most significant bit first.
pub open spec fn pixel_of(bits: u8, n: int) -> u32 {
    if bit_set(bits, 7 - n) {
        PIXEL_ON
    } else {
        PIXEL_OFF
    }
}

/// `pixels` with the row of eight `px` written from `offset`.
pub open spec fn row_written(pixels: Seq<u32>, offset: int, px: Seq<u32>) -> Seq<u32> {
    Seq::new(
        pixels.len(),
        |i: int| if offset <= i < offset + 8 { px[i - offset] } else { pixels[i] },
    )
}

/// Expands a byte into eight pixels, most significant bit first.
pub fn expand_byte_to_u32_array(bits: u8) -> (px: [u32; 8])
    ensures
        forall|n: int| 0 <= n < 8 ==> #[trigger] px@[n] == pixel_of(bits, n),
{
    let mut px: [u32; 8] = [PIXEL_OFF; 8];
    let mut n: usize = 0;
    while n < 8
        invariant
            n <= 8,
            forall|k: int| 0 <= k < n ==> #[trigger] px@[k] == pixel_of(bits, k),
        decreases 8 - n,
    {
        let shift = (7 - n) as u8;
        proof {
            lemma_shift_bit(bits, shift);
        }
        let v = if (bits >> shift) & 1 == 1 {
            PIXEL_ON
        } else {
            PIXEL_OFF
        };
        px[n] = v;
        n = n + 1;
    }
    px
}

/// A width by height grid of 32-bit pixels.
pub struct FrameBuffer {
    pub width: usize,
    pub height: usize,
    bytes: Vec<u32>,
}

/// The abstract state of a frame: its size and its pixels, row after row.
pub struct FrameView {
    pub width: usize,
    pub height: usize,
    pub pixels: Seq<u32>,
}

impl View for FrameBuffer {
    type V = FrameView;

    closed spec fn view(&self) -> FrameView {
        FrameView { width: self.width, height: self.height, pixels: self.bytes@ }
    }
}

impl FrameBuffer {
    /// A frame of `width` by `height` blank pixels.
    pub fn new(width: usize, height: usize) -> (fb: FrameBuffer)
        requires
            width * height <= usize::MAX,
        ensures
            fb@.width == width,
            fb@.height == height,
            fb@.pixels == Seq::new((width * height) as nat, |i: int| 0u32),
    {
        let n = width * height;
        let fb = FrameBuffer { width, height, bytes: vec![0u32; n] };
        assert(fb@.pixels =~= Seq::new((width * height) as nat, |i: int| 0u32));
        fb
    }

    pub fn bytes(&self) -> (b: &[u32])
        ensures
            b@ == self@.pixels,
    {
        self.bytes.as_slice()
    }

    pub fn bytes_mut(&mut self) -> (b: &mut [u32])
        ensures
            b@ == old(self)@.pixels,
    {
        self.bytes.as_mut_slice()
    }

    pub fn width(&self) -> (w: usize)
        ensures
            w == self@.width,
    {
        self.width
    }

    pub fn len(&self) -> (n: usize)
        ensures
            n == self@.pixels.len(),
    {
        self.bytes.len()
    }

    /// Writes eight pixels from `offset`.
    pub fn put_row(&mut self, offset: usize, px: &[u32; 8])
        requires
            offset + 8 <= old(self)@.pixels.len(),
        ensures
            final(self)@ == (FrameView { pixels: row_written(old(self)@.pixels, offset as int, px@), ..old(self)@ }),
    {
        let total = self.bytes.len();
        let mut n: usize = 0;
        while n < 8
            invariant
                n <= 8,
                total == self.bytes@.len(),
                offset + 8 <= old(self)@.pixels.len(),
                self.width == old(self).width,
                self.height == old(self).height,
                self.bytes@.len() == old(self)@.pixels.len(),
                forall|i: int|
                    0 <= i < old(self)@.pixels.len() ==> #[trigger] self.bytes@[i] == if offset <= i
                        < offset + n {
                        px@[i - offset]
                    } else {
                        old(self)@.pixels[i]
                    },
            decreases 8 - n,
        {
            self.bytes.set(offset + n, px[n]);
            n = n + 1;
        }
        assert(self.bytes@ =~= row_written(old(self)@.pixels, offset as int, px@));
    }
}

impl std::ops::Deref for FrameBuffer {
    type Target = [u32];

    fn deref(&self) -> &[u32] {
        self.bytes.as_slice()
    }
}

impl std::ops::DerefMut for FrameBuffer {
    fn deref_mut(&mut self) -> &mut [u32] {
        self.bytes.as_mut_slice()
    }
}

} // verus!
