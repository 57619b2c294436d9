//! Colour conversion from packed BGRA pixels to planar I420 samples.
//!
//! A frame is a row-major buffer of four-byte pixels in blue, green, red,
//! alpha order. Rows are `stride` bytes apart and may be padded. The output
//! holds one luma sample per pixel, then one U and one V sample per block of
//! two by two pixels, taken from the block's top-left pixel. A frame with an
//! odd width or height has a last column or row of partial blocks; a partial
//! block is sampled at its top-left pixel like any other.
use vstd::arithmetic::div_mod::{lemma_fundamental_div_mod, lemma_fundamental_div_mod_converse};
use vstd::prelude::*;

verus! {

/// Which plane of the planar output a sample belongs to.
#[derive(Clone, Copy, Debug, PartialEq, Eq, Structural)]
pub enum Component {
    Luma,
    ChromaU,
    ChromaV,
}

/// `x` saturated into `0..=255`.
pub open spec fn clamp_spec(x: int) -> int {
    if x < 0 {
        0
    } else if x > 255 {
        255
    } else {
        x
    }
}

/// The studio-range luma of a pixel. Division by 256 rounds toward negative
/// infinity, as an arithmetic shift right by eight does.
pub open spec fn luma(r: int, g: int, b: int) -> int {
    clamp_spec((66 * r + 129 * g + 25 * b + 128) / 256 + 16)
}

/// The studio-range blue-difference chroma of a pixel.
pub open spec fn chroma_u(r: int, g: int, b: int) -> int {
    clamp_spec((112 * b - 38 * r - 74 * g + 128) / 256 + 128)
}

/// The studio-range red-difference chroma of a pixel.
pub open spec fn chroma_v(r: int, g: int, b: int) -> int {
    clamp_spec((112 * r - 94 * g - 18 * b + 128) / 256 + 128)
}

/// The sample of plane `c` for a pixel.
pub open spec fn sample(c: Component, r: int, g: int, b: int) -> int {
    match c {
        Component::Luma => luma(r, g, b),
        Component::ChromaU => chroma_u(r, g, b),
        Component::ChromaV => chroma_v(r, g, b),
    }
}

/// The byte offset of the pixel in column `x` of row `y`.
pub open spec fn pixel_offset(stride: int, x: int, y: int) -> int {
    y * stride + 4 * x
}

/// The sample of plane `c` for the pixel in column `x` of row `y` of `src`.
pub open spec fn sample_at(c: Component, src: Seq<u8>, stride: int, x: int, y: int) -> u8 {
    let o = pixel_offset(stride, x, y);
    sample(c, src[o + 2] as int, src[o + 1] as int, src[o] as int) as u8
}

/// A plane of `cols` by `rows` samples, row-major, sampling every `step`-th
/// pixel of every `step`-th row.
pub open spec fn plane(
    c: Component,
    src: Seq<u8>,
    stride: int,
    cols: int,
    rows: int,
    step: int,
) -> Seq<u8> {
    Seq::new(
        (cols * rows) as nat,
        |i: int| sample_at(c, src, stride, step * (i % cols), step * (i / cols)),
    )
}

/// The number of two-pixel blocks that cover `n` pixels.
pub open spec fn chroma_dim(n: int) -> int {
    (n + 1) / 2
}

/// A buffer of `len` bytes holds a whole number of rows for `height` rows, and
/// each row has room for `width` pixels.
pub open spec fn frame_fits(len: int, width: int, height: int) -> bool {
    &&& width >= 0
    &&& height > 0
    &&& len % height == 0
    &&& len / height >= 4 * width
}

/// The planar form of the frame `src`: the luma plane, then the U plane, then
/// the V plane. The stride is the buffer's length divided by `height`.
pub open spec fn i420(src: Seq<u8>, width: int, height: int) -> Seq<u8> {
    let stride = src.len() as int / height;
    let cw = chroma_dim(width);
    let ch = chroma_dim(height);
    plane(Component::Luma, src, stride, width, height, 1) + plane(
        Component::ChromaU,
        src,
        stride,
        cw,
        ch,
        2,
    ) + plane(Component::ChromaV, src, stride, cw, ch, 2)
}

/// The length of the planar form of a `width` by `height` frame.
pub open spec fn i420_len(width: int, height: int) -> int {
    width * height + 2 * (chroma_dim(width) * chroma_dim(height))
}

/// Saturates `x` into `0..=255`.
pub fn clamp(x: i32) -> (r: u8)
    ensures
        r as int == clamp_spec(x as int),
{
    if x < 0 {
        0
    } else if x > 255 {
        255
    } else {
        x as u8
    }
}

/// Computes the sample of plane `c` for one pixel.
pub fn convert_sample(c: Component, r: u8, g: u8, b: u8) -> (s: u8)
    ensures
        s as int == sample(c, r as int, g as int, b as int),
{
    let r: u32 = r as u32;
    let g: u32 = g as u32;
    let b: u32 = b as u32;
    // The chroma sums can be negative; 128 * 256 is added before the division
    // and stands for the 128 that the formula adds after it.
    let scaled: u32 = match c {
        Component::Luma => (66 * r + 129 * g + 25 * b + 128) / 256 + 16,
        Component::ChromaU => (112 * b + 128 + 32768 - 38 * r - 74 * g) / 256,
        Component::ChromaV => (112 * r + 128 + 32768 - 94 * g - 18 * b) / 256,
    };
    clamp(scaled as i32)
}

/// Every sample of a pixel lies in the studio range, so the saturation in the
/// formulas never changes a value: luma is within `16..=235` and both chroma
/// samples are within `16..=240`.
pub proof fn lemma_studio_range(r: u8, g: u8, b: u8)
    ensures
        16 <= luma(r as int, g as int, b as int) <= 235,
        16 <= chroma_u(r as int, g as int, b as int) <= 240,
        16 <= chroma_v(r as int, g as int, b as int) <= 240,
        luma(r as int, g as int, b as int) == (66 * r + 129 * g + 25 * b + 128) / 256 + 16,
        chroma_u(r as int, g as int, b as int) == (112 * b - 38 * r - 74 * g + 128) / 256 + 128,
        chroma_v(r as int, g as int, b as int) == (112 * r - 94 * g - 18 * b + 128) / 256 + 128,
{
}

/// A pixel whose three colour channels are all `v` has no colour difference:
/// both chroma samples are 128. White has luma 235 and black has luma 16.
pub proof fn lemma_grey_is_neutral(v: u8)
    ensures
        chroma_u(v as int, v as int, v as int) == 128,
        chroma_v(v as int, v as int, v as int) == 128,
        luma(255, 255, 255) == 235,
        luma(0, 0, 0) == 16,
{
}

/// Every pixel of the `width` by `height` frame `src` has the colour
/// (`r`, `g`, `b`).
pub open spec fn is_solid(
    src: Seq<u8>,
    stride: int,
    width: int,
    height: int,
    r: u8,
    g: u8,
    b: u8,
) -> bool {
    forall|x: int, y: int|
        0 <= x < width && 0 <= y < height ==> {
            let o = #[trigger] pixel_offset(stride, x, y);
            src[o] == b && src[o + 1] == g && src[o + 2] == r
        }
}

/// A plane sampled from a frame of one colour holds one value throughout.
proof fn lemma_solid_plane(
    c: Component,
    src: Seq<u8>,
    stride: int,
    cols: int,
    rows: int,
    step: int,
    width: int,
    height: int,
    r: u8,
    g: u8,
    b: u8,
)
    requires
        is_solid(src, stride, width, height, r, g, b),
        0 <= cols,
        0 <= rows,
        step >= 1,
        cols > 0 ==> step * (cols - 1) < width,
        rows > 0 ==> step * (rows - 1) < height,
    ensures
        plane(c, src, stride, cols, rows, step).len() == cols * rows,
        forall|i: int|
            0 <= i < cols * rows ==> #[trigger] plane(c, src, stride, cols, rows, step)[i]
                == sample(c, r as int, g as int, b as int),
{
    assert(cols * rows >= 0) by (nonlinear_arith)
        requires
            0 <= cols,
            0 <= rows,
    ;
    assert forall|i: int| 0 <= i < cols * rows implies #[trigger] plane(
        c,
        src,
        stride,
        cols,
        rows,
        step,
    )[i] == sample(c, r as int, g as int, b as int) by {
        assert(cols > 0 && rows > 0) by (nonlinear_arith)
            requires
                0 <= i < cols * rows,
                0 <= cols,
                0 <= rows,
        ;
        let x = i % cols;
        let y = i / cols;
        lemma_fundamental_div_mod(i, cols);
        assert(0 <= y < rows) by (nonlinear_arith)
            requires
                i == cols * y + x,
                0 <= x < cols,
                0 <= i < cols * rows,
                0 <= rows,
        ;
        assert(0 <= step * x <= step * (cols - 1) && 0 <= step * y <= step * (rows - 1))
            by (nonlinear_arith)
            requires
                0 <= x <= cols - 1,
                0 <= y <= rows - 1,
                step >= 1,
        ;
        let o = pixel_offset(stride, step * x, step * y);
        assert(src[o] == b && src[o + 1] == g && src[o + 2] == r);
        lemma_studio_range(r, g, b);
    }
}

/// A frame of one colour converts to planes of one value each, whatever its
/// size: every luma sample is the colour's luma, every U sample its U and
/// every V sample its V.
pub proof fn lemma_solid_frame(src: Seq<u8>, width: int, height: int, r: u8, g: u8, b: u8)
    requires
        frame_fits(src.len() as int, width, height),
        is_solid(src, src.len() as int / height, width, height, r, g, b),
    ensures
        i420(src, width, height).len() == i420_len(width, height),
        forall|i: int|
            0 <= i < width * height ==> #[trigger] i420(src, width, height)[i] == luma(
                r as int,
                g as int,
                b as int,
            ),
        forall|i: int|
            width * height <= i < width * height + chroma_dim(width) * chroma_dim(height)
                ==> #[trigger] i420(src, width, height)[i] == chroma_u(
                r as int,
                g as int,
                b as int,
            ),
        forall|i: int|
            width * height + chroma_dim(width) * chroma_dim(height) <= i < i420_len(width, height)
                ==> #[trigger] i420(src, width, height)[i] == chroma_v(
                r as int,
                g as int,
                b as int,
            ),
{
    let stride = src.len() as int / height;
    let cw = chroma_dim(width);
    let ch = chroma_dim(height);
    lemma_solid_plane(Component::Luma, src, stride, width, height, 1, width, height, r, g, b);
    lemma_solid_plane(Component::ChromaU, src, stride, cw, ch, 2, width, height, r, g, b);
    lemma_solid_plane(Component::ChromaV, src, stride, cw, ch, 2, width, height, r, g, b);
    let py = plane(Component::Luma, src, stride, width, height, 1);
    let pu = plane(Component::ChromaU, src, stride, cw, ch, 2);
    let pv = plane(Component::ChromaV, src, stride, cw, ch, 2);
    let out = i420(src, width, height);
    assert(out == py + pu + pv);
    assert forall|i: int| 0 <= i < width * height implies #[trigger] out[i] == luma(
        r as int,
        g as int,
        b as int,
    ) by {
        assert(out[i] == py[i]);
    }
    assert forall|i: int| width * height <= i < width * height + cw * ch implies #[trigger] out[i]
        == chroma_u(r as int, g as int, b as int) by {
        assert(out[i] == pu[i - width * height]);
    }
    assert forall|i: int|
        width * height + cw * ch <= i < i420_len(width, height) implies #[trigger] out[i]
        == chroma_v(r as int, g as int, b as int) by {
        assert(out[i] == pv[i - width * height - cw * ch]);
    }
}

/// Appends to `dest` the plane of `cols` by `rows` samples that takes every
/// `step`-th pixel of every `step`-th row of `src`.
fn push_plane(
    c: Component,
    src: &[u8],
    stride: usize,
    cols: usize,
    rows: usize,
    step: usize,
    dest: &mut Vec<u8>,
)
    requires
        step == 1 || step == 2,
        rows > 0 ==> step * (rows - 1) * stride + stride <= src@.len(),
        cols > 0 ==> 4 * (step * (cols - 1)) + 4 <= stride,
    ensures
        final(dest)@ == old(dest)@ + plane(
            c,
            src@,
            stride as int,
            cols as int,
            rows as int,
            step as int,
        ),
{
    let ghost before = dest@;
    let ghost want = plane(c, src@, stride as int, cols as int, rows as int, step as int);
    let len: usize = src.len();
    if cols == 0 {
        assert(cols * rows == 0) by (nonlinear_arith)
            requires
                cols == 0,
        ;
        assert(dest@ =~= before + want);
        return ;
    }
    proof {
        assert(cols * rows == rows * cols && rows * cols >= 0) by (nonlinear_arith);
        assert(step * (cols - 1) >= 0) by (nonlinear_arith)
            requires
                step >= 1,
                cols >= 1,
        ;
    }
    let mut y: usize = 0;
    while y < rows
        invariant
            step == 1 || step == 2,
            cols > 0,
            y <= rows,
            rows > 0 ==> step * (rows - 1) * stride + stride <= src@.len(),
            4 * (step * (cols - 1)) + 4 <= stride,
            stride >= 4,
            len == src@.len(),
            want == plane(c, src@, stride as int, cols as int, rows as int, step as int),
            want.len() == rows * cols,
            dest@.len() == before.len() + y * cols,
            y * cols <= rows * cols,
            forall|i: int| 0 <= i < before.len() ==> dest@[i] == before[i],
            forall|i: int| 0 <= i < y * cols ==> dest@[before.len() + i] == want[i],
        decreases rows - y,
    {
        proof {
            assert(y * cols + cols <= rows * cols && 0 <= y * cols && (y + 1) * cols == y * cols
                + cols) by (nonlinear_arith)
                requires
                    0 <= y,
                    y + 1 <= rows,
                    cols >= 0,
            ;
            assert(step * y <= step * (rows - 1)) by (nonlinear_arith)
                requires
                    0 <= y <= rows - 1,
                    step >= 1,
            ;
            assert((step * y) * stride + stride <= src@.len() && step * y <= (step * y) * stride)
                by (nonlinear_arith)
                requires
                    0 <= step * y <= step * (rows - 1),
                    stride >= 1,
                    (step * (rows - 1)) * stride + stride <= src@.len(),
            ;
        }
        let row: usize = step * y;
        let base: usize = row * stride;
        let mut x: usize = 0;
        while x < cols
            invariant
                step == 1 || step == 2,
                y < rows,
                x <= cols,
                row == step * y,
                base == row * stride,
                base + stride <= src@.len(),
                len == src@.len(),
                4 * (step * (cols - 1)) + 4 <= stride,
                want == plane(c, src@, stride as int, cols as int, rows as int, step as int),
                want.len() == rows * cols,
                dest@.len() == before.len() + y * cols + x,
                0 <= y * cols,
                y * cols + cols <= rows * cols,
                forall|i: int| 0 <= i < before.len() ==> dest@[i] == before[i],
                forall|i: int| 0 <= i < y * cols + x ==> dest@[before.len() + i] == want[i],
            decreases cols - x,
        {
            proof {
                assert(0 <= step * x <= step * (cols - 1)) by (nonlinear_arith)
                    requires
                        0 <= x <= cols - 1,
                        step >= 1,
                ;
            }
            let o: usize = base + 4 * (step * x);
            let s: u8 = convert_sample(c, src[o + 2], src[o + 1], src[o]);
            proof {
                let i = y * cols + x;
                lemma_fundamental_div_mod_converse(i, cols as int, y as int, x as int);
                assert(o == pixel_offset(stride as int, step * x, step * y));
                assert(want[i] == sample_at(c, src@, stride as int, step * x, step * y));
            }
            dest.push(s);
            x += 1;
        }
        y += 1;
    }
    assert(dest@ =~= before + want);
}

/// Converts the `width` by `height` BGRA frame `src` to planar I420 and
/// leaves the result in `dest`, replacing what `dest` held. The buffer must
/// hold a whole number of rows, each with room for `width` pixels. (A pixel
/// read as one little-endian word has alpha in its high byte and blue in its
/// low byte: hence the name.)
pub fn argb_to_i420(width: usize, height: usize, src: &[u8], dest: &mut Vec<u8>)
    requires
        frame_fits(src@.len() as int, width as int, height as int),
    ensures
        final(dest)@ == i420(src@, width as int, height as int),
        final(dest)@.len() == i420_len(width as int, height as int),
{
    let stride: usize = src.len() / height;
    let cw: usize = width / 2 + width % 2;
    let ch: usize = height / 2 + height % 2;
    proof {
        assert(height * stride == src@.len()) by (nonlinear_arith)
            requires
                height > 0,
                stride == src@.len() as int / height as int,
                src@.len() as int % height as int == 0,
        ;
        assert((height - 1) * stride + stride == height * stride) by (nonlinear_arith);
        assert(2 * (ch - 1) * stride + stride <= height * stride) by (nonlinear_arith)
            requires
                2 * (ch - 1) <= height - 1,
                stride >= 0,
        ;
    }
    dest.clear();
    push_plane(Component::Luma, src, stride, width, height, 1, dest);
    push_plane(Component::ChromaU, src, stride, cw, ch, 2, dest);
    push_plane(Component::ChromaV, src, stride, cw, ch, 2, dest);
}

} // verus!
