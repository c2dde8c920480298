//! Frames as plain buffers, and the colour mask over a frame.

use vstd::prelude::*;
use crate::parameters::ColorBounds;

verus! {

/// Bytes of one pixel: red, green, blue, alpha.
pub const CHANNELS: usize = 4;

/// Mask value of a pixel inside the colour bounds.
pub const WHITE: u8 = 255;

/// Mask value of a pixel outside the colour bounds.
pub const BLACK: u8 = 0;

/// A frame of red, green, blue and alpha bytes, row after row from the top.
#[derive(Debug, PartialEq, Eq)]
pub struct Frame {
    width: u32,
    height: u32,
    pixels: Vec<u8>,
}

/// What a frame holds.
pub struct FrameView {
    pub width: nat,
    pub height: nat,
    pub pixels: Seq<u8>,
}

impl FrameView {
    /// The place of channel `channel` of the pixel in column `x` of row `y`.
    pub open spec fn offset(self, x: int, y: int, channel: int) -> int {
        (y * self.width + x) * 4 + channel
    }

    /// The byte of channel `channel` of the pixel in column `x` of row `y`.
    pub open spec fn sample(self, x: int, y: int, channel: int) -> u8 {
        self.pixels[self.offset(x, y, channel)]
    }
}

impl View for Frame {
    type V = FrameView;

    closed spec fn view(&self) -> FrameView {
        FrameView {
            width: self.width as nat,
            height: self.height as nat,
            pixels: self.pixels@,
        }
    }
}

/// Bytes that a frame of this size holds.
pub open spec fn frame_len(width: nat, height: nat) -> nat {
    width * height * 4
}

impl Frame {
    #[verifier::type_invariant]
    spec fn well_formed(self) -> bool {
        self.pixels@.len() == frame_len(self.width as nat, self.height as nat)
    }

    /// A frame over `pixels`, if there are exactly as many bytes as the size
    /// asks for.
    pub fn from_raw(width: u32, height: u32, pixels: Vec<u8>) -> (frame: Option<Frame>)
        ensures
            frame is Some <==> pixels@.len() == frame_len(width as nat, height as nat),
            frame matches Some(f) ==> f@ == (FrameView {
                width: width as nat,
                height: height as nat,
                pixels: pixels@,
            }),
    {
        assert(width * height <= 0xffff_ffff * 0xffff_ffff) by (nonlinear_arith)
            requires
                0 <= width <= 0xffff_ffff,
                0 <= height <= 0xffff_ffff,
        ;
        let area: u64 = (width as u64) * (height as u64);
        let wanted: u128 = (area as u128) * 4;
        assert(wanted == frame_len(width as nat, height as nat)) by (nonlinear_arith)
            requires
                wanted == area * 4,
                area == width * height,
        ;
        if (pixels.len() as u128) == wanted {
            Some(Frame { width, height, pixels })
        } else {
            None
        }
    }

    /// Pixels in a row.
    pub fn width(&self) -> (w: u32)
        ensures
            w == self@.width,
    {
        self.width
    }

    /// Rows.
    pub fn height(&self) -> (h: u32)
        ensures
            h == self@.height,
    {
        self.height
    }

    /// The bytes of the frame.
    pub fn pixels(&self) -> (pixels: &Vec<u8>)
        ensures
            pixels@ == self@.pixels,
            pixels@.len() == frame_len(self@.width, self@.height),
    {
        proof {
            use_type_invariant(self);
        }
        &self.pixels
    }

    /// Gives the bytes back.
    pub fn into_raw(self) -> (pixels: Vec<u8>)
        ensures
            pixels@ == self@.pixels,
            pixels@.len() == frame_len(self@.width, self@.height),
    {
        proof {
            use_type_invariant(&self);
        }
        self.pixels
    }
}

impl ColorBounds {
    /// The colour lies strictly between the bounds on each channel.
    pub open spec fn spec_contains(&self, red: u8, green: u8, blue: u8) -> bool {
        &&& self.gmin < green < self.gmax
        &&& self.rmin < red < self.rmax
        &&& self.bmin < blue < self.bmax
    }

    /// Whether the colour lies inside the bounds.
    #[verifier::when_used_as_spec(spec_contains)]
    pub fn contains(&self, red: u8, green: u8, blue: u8) -> (inside: bool)
        ensures
            inside == self.spec_contains(red, green, blue),
    {
        green > self.gmin && green < self.gmax && red > self.rmin && red < self.rmax && blue
            > self.bmin && blue < self.bmax
    }
}

/// One byte per pixel of a frame: `WHITE` where the pixel's colour lies
/// inside the bounds, `BLACK` elsewhere.
pub open spec fn is_mask_of(mask: Seq<u8>, frame: FrameView, bounds: ColorBounds) -> bool {
    &&& mask.len() == frame.width * frame.height
    &&& forall|i: int|
        0 <= i < mask.len() ==> #[trigger] mask[i] == (if bounds.spec_contains(
            frame.pixels[4 * i],
            frame.pixels[4 * i + 1],
            frame.pixels[4 * i + 2],
        ) {
            WHITE
        } else {
            BLACK
        })
}

/// The colour mask of a frame, row after row like the frame.
pub fn mask_maker(frame: &Frame, bounds: &ColorBounds) -> (mask: Vec<u8>)
    ensures
        is_mask_of(mask@, frame@, *bounds),
{
    let pixels = frame.pixels();
    let count: usize = pixels.len() / 4;
    assert(count == frame@.width * frame@.height) by (nonlinear_arith)
        requires
            pixels@.len() == frame@.width * frame@.height * 4,
            count == pixels@.len() / 4,
    ;
    let mut mask: Vec<u8> = Vec::new();
    let mut i: usize = 0;
    while i < count
        invariant
            i <= count,
            count == pixels@.len() / 4,
            pixels@.len() <= usize::MAX,
            pixels@ == frame@.pixels,
            mask@.len() == i,
            forall|k: int|
                0 <= k < i ==> #[trigger] mask@[k] == (if bounds.spec_contains(
                    pixels@[4 * k],
                    pixels@[4 * k + 1],
                    pixels@[4 * k + 2],
                ) {
                    WHITE
                } else {
                    BLACK
                }),
        decreases count - i,
    {
        let at: usize = i * 4;
        let inside: bool = bounds.contains(pixels[at], pixels[at + 1], pixels[at + 2]);
        mask.push(if inside { WHITE } else { BLACK });
        i = i + 1;
    }
    mask
}

} // verus!
