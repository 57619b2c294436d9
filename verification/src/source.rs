//! The synthetic frame source: frames of one colour, a stand-in for a camera.
use crate::convert::{frame_fits, is_solid, pixel_offset};
use vstd::arithmetic::div_mod::lemma_fundamental_div_mod_converse;
use vstd::prelude::*;

verus! {

/// One packed pixel, in the order its bytes lie in a frame.
#[derive(Clone, Copy, Debug, PartialEq, Eq, Structural)]
pub struct Bgra {
    pub b: u8,
    pub g: u8,
    pub r: u8,
    pub a: u8,
}

impl Bgra {
    /// The byte at position `i` of the pixel.
    pub open spec fn channel(self, i: int) -> u8 {
        if i == 0 {
            self.b
        } else if i == 1 {
            self.g
        } else if i == 2 {
            self.r
        } else {
            self.a
        }
    }
}

/// The width of the frames that the synthetic source produces.
pub const FRAME_WIDTH: u32 = 300;

/// The height of the frames that the synthetic source produces.
pub const FRAME_HEIGHT: u32 = 300;

/// The colour of the frames that the synthetic source produces.
pub open spec fn synthetic_pixel() -> Bgra {
    Bgra { b: 0, g: 255, r: 255, a: 255 }
}

/// The unpadded `width` by `height` frame whose pixels all equal `pixel`.
pub open spec fn solid(width: int, height: int, pixel: Bgra) -> Seq<u8> {
    Seq::new((4 * (width * height)) as nat, |i: int| pixel.channel(i % 4))
}

/// An unpadded solid frame fits its own dimensions and is of one colour.
pub proof fn lemma_solid_is_solid(width: int, height: int, pixel: Bgra)
    requires
        0 <= width,
        0 < height,
    ensures
        solid(width, height, pixel).len() == 4 * (width * height),
        solid(width, height, pixel).len() as int / height == 4 * width,
        frame_fits(solid(width, height, pixel).len() as int, width, height),
        is_solid(
            solid(width, height, pixel),
            4 * width,
            width,
            height,
            pixel.r,
            pixel.g,
            pixel.b,
        ),
{
    let s = solid(width, height, pixel);
    assert(width * height >= 0 && 4 * (width * height) == (4 * width) * height + 0)
        by (nonlinear_arith)
        requires
            0 <= width,
            0 < height,
    ;
    lemma_fundamental_div_mod_converse(4 * (width * height), height, 4 * width, 0);
    assert forall|x: int, y: int| 0 <= x < width && 0 <= y < height implies {
        let o = #[trigger] pixel_offset(4 * width, x, y);
        s[o] == pixel.b && s[o + 1] == pixel.g && s[o + 2] == pixel.r
    } by {
        let o = pixel_offset(4 * width, x, y);
        assert(o == 4 * (y * width + x) && 0 <= y * width + x < width * height)
            by (nonlinear_arith)
            requires
                o == y * (4 * width) + 4 * x,
                0 <= x < width,
                0 <= y < height,
        ;
    }
}

/// Builds the unpadded `width` by `height` frame whose pixels all equal
/// `pixel`.
pub fn solid_frame(width: usize, height: usize, pixel: Bgra) -> (frame: Vec<u8>)
    requires
        4 * (width * height) <= usize::MAX,
    ensures
        frame@ == solid(width as int, height as int, pixel),
{
    assert(width * height >= 0) by (nonlinear_arith)
        requires
            width >= 0,
            height >= 0,
    ;
    let count: usize = width * height;
    let mut frame: Vec<u8> = Vec::new();
    let mut n: usize = 0;
    while n < count
        invariant
            n <= count,
            4 * count <= usize::MAX,
            frame@.len() == 4 * n,
            forall|i: int| 0 <= i < 4 * n ==> frame@[i] == pixel.channel(i % 4),
        decreases count - n,
    {
        frame.push(pixel.b);
        frame.push(pixel.g);
        frame.push(pixel.r);
        frame.push(pixel.a);
        n += 1;
    }
    assert(frame@ =~= solid(width as int, height as int, pixel));
    frame
}

/// Builds one frame of the synthetic source: every pixel opaque yellow.
pub fn synthetic_frame(width: usize, height: usize) -> (frame: Vec<u8>)
    requires
        4 * (width * height) <= usize::MAX,
    ensures
        frame@ == solid(width as int, height as int, synthetic_pixel()),
{
    solid_frame(width, height, Bgra { b: 0, g: 255, r: 255, a: 255 })
}

} // verus!
