use vstd::prelude::*;

verus! {

/// Number of bytes one RGB pixel occupies in a pixel buffer.
pub const ELEMENT_BYTES: usize = 3;

/// Iteration budget of the escape-time evaluator, chosen so that an escape
/// count fits an 8-bit intensity.
pub const ITERATION_LIMIT: usize = 255;

/// Number of color bands of the quantizer.
pub const BAND_COUNT: usize = 9;

/// Lowest intensity of band `k`.
pub open spec fn band_low(k: int) -> int {
    if k == 0 {
        0
    } else if k < 8 {
        35 * k - 34
    } else {
        255
    }
}

/// Highest intensity of band `k`.
pub open spec fn band_high(k: int) -> int {
    if k == 0 {
        0
    } else if k < 7 {
        35 * k
    } else if k == 7 {
        254
    } else {
        255
    }
}

/// The band that intensity `v` falls in: 0; 1..=35; 36..=70; 71..=105;
/// 106..=140; 141..=175; 176..=210; 211..=254; 255.
pub open spec fn band_of(v: u8) -> int {
    if v == 0 {
        0
    } else if v <= 35 {
        1
    } else if v <= 70 {
        2
    } else if v <= 105 {
        3
    } else if v <= 140 {
        4
    } else if v <= 175 {
        5
    } else if v <= 210 {
        6
    } else if v <= 254 {
        7
    } else {
        8
    }
}

/// The RGB triple of band `k`: black, violet, indigo, blue, green, yellow,
/// orange, red, white.
pub open spec fn palette(k: int) -> Seq<u8> {
    if k == 0 {
        seq![0u8, 0u8, 0u8]
    } else if k == 1 {
        seq![148u8, 0u8, 211u8]
    } else if k == 2 {
        seq![75u8, 0u8, 130u8]
    } else if k == 3 {
        seq![0u8, 0u8, 255u8]
    } else if k == 4 {
        seq![0u8, 255u8, 0u8]
    } else if k == 5 {
        seq![255u8, 255u8, 0u8]
    } else if k == 6 {
        seq![255u8, 127u8, 0u8]
    } else if k == 7 {
        seq![255u8, 0u8, 0u8]
    } else {
        seq![255u8, 255u8, 255u8]
    }
}

/// The color of intensity `v`.
pub open spec fn color_of(v: u8) -> Seq<u8> {
    palette(band_of(v))
}

/// The intensity byte of an escape result: a point that never escaped is
/// dark (0); one that escaped after `n` iterations gets `255 - n`. The
/// count is taken as a byte, so counts of 256 and more wrap modulo 256; the
/// evaluator's counts stay below `ITERATION_LIMIT`, where none wraps.
pub open spec fn intensity_of(escape: Option<usize>) -> u8 {
    match escape {
        None => 0u8,
        Some(n) => (255 - (n % 256)) as u8,
    }
}

/// The color of a pixel whose point gave the escape result `escape`.
pub open spec fn color_for(escape: Option<usize>) -> Seq<u8> {
    color_of(intensity_of(escape))
}

/// Every intensity lies in exactly one band, the one `band_of` names, and
/// no two bands share a color.
pub proof fn lemma_bands_partition(v: u8)
    ensures
        0 <= band_of(v) < BAND_COUNT,
        band_low(band_of(v)) <= v <= band_high(band_of(v)),
        forall|k: int| 0 <= k < BAND_COUNT && #[trigger] band_low(k) <= v <= band_high(k) ==> k == band_of(v),
        forall|j: int, k: int|
            0 <= j < BAND_COUNT && 0 <= k < BAND_COUNT && j != k ==> #[trigger] palette(j) != #[trigger] palette(k),
{
    assert forall|j: int, k: int|
        0 <= j < BAND_COUNT && 0 <= k < BAND_COUNT && j != k implies palette(j) != palette(k) by {
        if palette(j) == palette(k) {
            assert(palette(j)[0] == palette(k)[0]);
            assert(palette(j)[1] == palette(k)[1]);
            assert(palette(j)[2] == palette(k)[2]);
        }
    }
}

/// The intensity byte of an escape result; escape counts of 256 and more
/// wrap modulo 256.
pub fn intensity(escape: Option<usize>) -> (r: u8)
    ensures
        r == intensity_of(escape),
{
    match escape {
        None => 0,
        Some(count) => {
            let low: u8 = (count % 256) as u8;
            255 - low
        },
    }
}

/// Quantizes an intensity byte into the color of its band.
pub fn map_color(value: u8) -> (r: [u8; 3])
    ensures
        r@ == color_of(value),
{
    let r: [u8; 3] = if value == 0 {
        [0, 0, 0]
    } else if value <= 35 {
        [148, 0, 211]
    } else if value <= 70 {
        [75, 0, 130]
    } else if value <= 105 {
        [0, 0, 255]
    } else if value <= 140 {
        [0, 255, 0]
    } else if value <= 175 {
        [255, 255, 0]
    } else if value <= 210 {
        [255, 127, 0]
    } else if value <= 254 {
        [255, 0, 0]
    } else {
        [255, 255, 255]
    };
    assert(r@ =~= color_of(value));
    r
}

/// The color of a pixel whose point gave the escape result `escape`.
pub fn pixel_color(escape: Option<usize>) -> (r: [u8; 3])
    ensures
        r@ == color_for(escape),
{
    map_color(intensity(escape))
}

} // verus!
