use vstd::prelude::*;
use crate::color::{color_for, pixel_color, ELEMENT_BYTES};
use crate::raster::{canvas_bytes, canvas_size, Canvas};

verus! {

/// The bytes of a row-major RGB buffer whose pixels, in order, gave the
/// escape results `escapes`.
pub open spec fn painted(escapes: Seq<Option<usize>>) -> Seq<u8> {
    Seq::new(3 * escapes.len(), |i: int| color_for(escapes[i / 3])[i % 3])
}

/// First pixel row of band `index` when each band holds `rows_per_band` rows.
pub open spec fn band_top(rows_per_band: int, index: int) -> int {
    index * rows_per_band
}

/// The pixel row just below band `index` of an image `height` rows tall.
pub open spec fn band_bottom(height: int, rows_per_band: int, index: int) -> int {
    if (index + 1) * rows_per_band <= height {
        (index + 1) * rows_per_band
    } else {
        height
    }
}

/// Where one band of rows lies in the image, in pixel coordinates.
#[derive(Clone, Copy, Debug)]
pub struct BandGeometry {
    /// The band's upper-left pixel corner: column 0 of its first row.
    pub upper_left: (usize, usize),
    /// The band's lower-right pixel corner: one past the last column, on
    /// the row just below the band.
    pub lower_right: (usize, usize),
    /// The band's own width and height in pixels.
    pub bounds: (usize, usize),
}

/// The geometry of band `index` of an image of `bounds` pixels cut into
/// bands of `rows_per_band` rows (the last one may hold fewer). Its corners
/// are pixel coordinates of the whole image, so that mapping them against
/// the whole image's bounds gives the band's own plane rectangle.
pub fn band_geometry(bounds: (usize, usize), rows_per_band: usize, index: usize) -> (r:
    BandGeometry)
    requires
        rows_per_band > 0,
        index * rows_per_band < bounds.1,
    ensures
        r.upper_left == (0usize, band_top(rows_per_band as int, index as int) as usize),
        r.lower_right == (bounds.0, band_bottom(bounds.1 as int, rows_per_band as int, index as int) as usize),
        r.bounds == (bounds.0, (band_bottom(bounds.1 as int, rows_per_band as int, index as int)
            - band_top(rows_per_band as int, index as int)) as usize),
{
    let top = index * rows_per_band;
    let rows = if rows_per_band <= bounds.1 - top {
        rows_per_band
    } else {
        bounds.1 - top
    };
    proof {
        assert((index + 1) * rows_per_band == index * rows_per_band + rows_per_band)
            by (nonlinear_arith);
    }
    BandGeometry { upper_left: (0, top), lower_right: (bounds.0, top + rows), bounds: (bounds.0, rows) }
}

/// Painting pixels `lo..hi` on their own gives the bytes that painting all
/// of them puts at `3 * lo .. 3 * hi`.
pub proof fn lemma_painted_subrange(escapes: Seq<Option<usize>>, lo: int, hi: int)
    requires
        0 <= lo <= hi <= escapes.len(),
    ensures
        painted(escapes.subrange(lo, hi)) == painted(escapes).subrange(3 * lo, 3 * hi),
{
    let part = painted(escapes.subrange(lo, hi));
    let whole = painted(escapes).subrange(3 * lo, 3 * hi);
    assert forall|i: int| 0 <= i < part.len() implies part[i] == whole[i] by {
        assert((3 * lo + i) / 3 == lo + i / 3);
        assert((3 * lo + i) % 3 == i % 3);
    }
    assert(part =~= whole);
}

/// Banded rendering agrees with sequential rendering: for an image `width`
/// pixels wide cut into bands of `rows_per_band` rows, band `index` painted
/// on its own, with the escape results of its own pixels, holds exactly the
/// bytes that painting the whole image puts in that band's byte range; and
/// consecutive bands meet, so together they cover the whole buffer once.
pub proof fn lemma_banded_matches_sequential(
    escapes: Seq<Option<usize>>,
    width: int,
    rows_per_band: int,
    index: int,
)
    requires
        width > 0,
        rows_per_band > 0,
        index >= 0,
        (escapes.len() as int) % width == 0,
        band_top(rows_per_band, index) < (escapes.len() as int) / width,
    ensures
        ({
            let height = (escapes.len() as int) / width;
            let lo = band_top(rows_per_band, index) * width;
            let hi = band_bottom(height, rows_per_band, index) * width;
            &&& 0 <= lo < hi <= escapes.len()
            &&& painted(escapes.subrange(lo, hi)) == painted(escapes).subrange(3 * lo, 3 * hi)
            &&& band_top(rows_per_band, index + 1) == band_bottom(height, rows_per_band, index)
                || band_bottom(height, rows_per_band, index) == height
        }),
{
    let height = (escapes.len() as int) / width;
    let top = band_top(rows_per_band, index);
    let bottom = band_bottom(height, rows_per_band, index);
    vstd::arithmetic::div_mod::lemma_fundamental_div_mod(escapes.len() as int, width);
    assert(escapes.len() == height * width) by (nonlinear_arith)
        requires
            escapes.len() == width * height + (escapes.len() as int) % width,
            (escapes.len() as int) % width == 0,
    ;
    assert(0 <= top && (index + 1) * rows_per_band == top + rows_per_band) by (nonlinear_arith)
        requires
            top == index * rows_per_band,
            index >= 0,
            rows_per_band > 0,
    ;
    assert(top * width < bottom * width && bottom * width <= height * width && 0 <= top * width)
        by (nonlinear_arith)
        requires
            0 <= top < bottom <= height,
            width > 0,
    ;
    assert(band_top(rows_per_band, index + 1) == (index + 1) * rows_per_band);
    lemma_painted_subrange(escapes, top * width, bottom * width);
}

/// Paints a band of pixels: pixel `k` of `band` gets the color of
/// `escapes[k]`, its channels packed one after the other.
pub fn process_image(band: &mut [u8], escapes: &[Option<usize>])
    requires
        old(band)@.len() == ELEMENT_BYTES * escapes@.len(),
    ensures
        final(band)@ == painted(escapes@),
{
    let n = escapes.len();
    let len = band.len();
    let mut k: usize = 0;
    while k < n
        invariant
            n == escapes@.len(),
            band@.len() == 3 * n,
            len == 3 * n,
            k <= n,
            forall|i: int| 0 <= i < 3 * k ==> #[trigger] band@[i] == painted(escapes@)[i],
        decreases n - k,
    {
        let color = pixel_color(escapes[k]);
        let offset = k * ELEMENT_BYTES;
        let mut x: usize = 0;
        while x < ELEMENT_BYTES
            invariant
                n == escapes@.len(),
                band@.len() == 3 * n,
                len == 3 * n,
                k < n,
                offset == 3 * k,
                x <= 3,
                color@ == color_for(escapes@[k as int]),
                forall|i: int| 0 <= i < 3 * k + x ==> #[trigger] band@[i] == painted(escapes@)[i],
            decreases 3 - x,
        {
            band[offset + x] = color[x];
            x += 1;
        }
        k += 1;
    }
    assert(band@ =~= painted(escapes@));
}

/// Renders a `bounds.0` by `bounds.1` image, pixel by pixel in row-major
/// order, into an RGB image of that size, and hands back its samples.
/// `escapes` holds the escape result of each pixel's point, row-major.
pub fn render_single(bounds: (u32, u32), escapes: &Vec<Option<usize>>) -> (r: Vec<u8>)
    requires
        escapes@.len() == bounds.0 * bounds.1,
        bounds.0 * 3 <= usize::MAX,
        bounds.0 * bounds.1 * 3 <= usize::MAX,
    ensures
        r@ == painted(escapes@),
{
    let (width, height) = bounds;
    let ghost total = (width * height) as int;
    let mut canvas = Canvas::new(width, height);
    let mut row: u32 = 0;
    while row < height
        invariant
            canvas_size(canvas) == (width, height),
            canvas_bytes(canvas).len() == 3 * total,
            total == width * height,
            escapes@.len() == total,
            total * 3 <= usize::MAX,
            row <= height,
            forall|i: int|
                0 <= i < 3 * (row * width) ==> #[trigger] canvas_bytes(canvas)[i] == painted(
                    escapes@,
                )[i],
        decreases height - row,
    {
        let mut column: u32 = 0;
        while column < width
            invariant
                canvas_size(canvas) == (width, height),
                canvas_bytes(canvas).len() == 3 * total,
                total == width * height,
                escapes@.len() == total,
                total * 3 <= usize::MAX,
                row < height,
                column <= width,
                forall|i: int|
                    0 <= i < 3 * (row * width + column) ==> #[trigger] canvas_bytes(canvas)[i]
                        == painted(escapes@)[i],
            decreases width - column,
        {
            proof {
                assert(row * width + column < total) by (nonlinear_arith)
                    requires
                        row < height,
                        column < width,
                        total == width * height,
                ;
            }
            let index = row as usize * width as usize + column as usize;
            let color = pixel_color(escapes[index]);
            canvas.put_rgb(column, row, color);
            column += 1;
        }
        proof {
            assert(row * width + width == (row + 1) * width) by (nonlinear_arith);
        }
        row += 1;
    }
    proof {
        assert(row * width == total) by (nonlinear_arith)
            requires
                row == height,
                total == width * height,
        ;
    }
    let r = canvas.into_bytes();
    assert(r@ =~= painted(escapes@));
    r
}

} // verus!
