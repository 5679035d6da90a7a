use mandelbrot::color::{intensity, map_color, pixel_color, ELEMENT_BYTES, ITERATION_LIMIT};
use mandelbrot::render::{band_geometry, process_image, render_single};

const BLACK: [u8; 3] = [0, 0, 0];
const VIOLET: [u8; 3] = [148, 0, 211];
const INDIGO: [u8; 3] = [75, 0, 130];
const BLUE: [u8; 3] = [0, 0, 255];
const GREEN: [u8; 3] = [0, 255, 0];
const YELLOW: [u8; 3] = [255, 255, 0];
const ORANGE: [u8; 3] = [255, 127, 0];
const RED: [u8; 3] = [255, 0, 0];
const WHITE: [u8; 3] = [255, 255, 255];

fn sample_escapes(n: usize) -> Vec<Option<usize>> {
    (0..n).map(|k| if k % 5 == 0 { None } else { Some((k * 37) % ITERATION_LIMIT) }).collect()
}

#[test]
fn color_band_boundaries() {
    assert_eq!(map_color(0), BLACK);
    assert_eq!(map_color(35), VIOLET);
    assert_eq!(map_color(70), INDIGO);
    assert_eq!(map_color(105), BLUE);
    assert_eq!(map_color(140), GREEN);
    assert_eq!(map_color(175), YELLOW);
    assert_eq!(map_color(210), ORANGE);
    assert_eq!(map_color(254), RED);
    assert_eq!(map_color(255), WHITE);
}

#[test]
fn color_band_lower_edges() {
    assert_eq!(map_color(1), VIOLET);
    assert_eq!(map_color(36), INDIGO);
    assert_eq!(map_color(71), BLUE);
    assert_eq!(map_color(106), GREEN);
    assert_eq!(map_color(141), YELLOW);
    assert_eq!(map_color(176), ORANGE);
    assert_eq!(map_color(211), RED);
}

#[test]
fn every_intensity_has_one_of_nine_colors() {
    let palette = [BLACK, VIOLET, INDIGO, BLUE, GREEN, YELLOW, ORANGE, RED, WHITE];
    let mut last_band = 0usize;
    for v in 0..=255u8 {
        let c = map_color(v);
        let band = palette.iter().position(|p| *p == c).expect("color outside the palette");
        assert!(band == last_band || band == last_band + 1);
        last_band = band;
    }
    assert_eq!(last_band, 8);
}

#[test]
fn intensity_of_escape_results() {
    assert_eq!(intensity(None), 0);
    assert_eq!(intensity(Some(0)), 255);
    assert_eq!(intensity(Some(1)), 254);
    assert_eq!(intensity(Some(254)), 1);
    assert_eq!(intensity(Some(256)), 255);
    assert_eq!(pixel_color(None), BLACK);
    assert_eq!(pixel_color(Some(0)), WHITE);
    assert_eq!(pixel_color(Some(100)), YELLOW);
    assert_eq!(pixel_color(Some(120)), GREEN);
    assert_eq!(pixel_color(Some(160)), BLUE);
}

#[test]
fn render_single_paints_row_major() {
    let escapes = vec![None, Some(0), Some(100), Some(220), Some(1), Some(254)];
    let bytes = render_single((3, 2), &escapes);
    let mut expected = Vec::new();
    for c in [BLACK, WHITE, YELLOW, VIOLET, RED, VIOLET] {
        expected.extend_from_slice(&c);
    }
    assert_eq!(bytes, expected);
}

#[test]
fn render_single_empty_image() {
    assert_eq!(render_single((0, 4), &Vec::new()), Vec::<u8>::new());
}

#[test]
fn process_image_paints_packed_channels() {
    let mut band = vec![7u8; 6];
    process_image(&mut band, &[Some(200), None]);
    assert_eq!(band, vec![75, 0, 130, 0, 0, 0]);
}

#[test]
fn banded_matches_sequential() {
    let (width, height) = (7usize, 5usize);
    let escapes = sample_escapes(width * height);
    let whole = render_single((width as u32, height as u32), &escapes);
    for rows_per_band in 1..=height {
        let mut banded = vec![0u8; width * height * ELEMENT_BYTES];
        for (i, band) in banded.chunks_mut(width * rows_per_band * ELEMENT_BYTES).enumerate() {
            let g = band_geometry((width, height), rows_per_band, i);
            let lo = g.upper_left.1 * width;
            let hi = g.lower_right.1 * width;
            process_image(band, &escapes[lo..hi]);
        }
        assert_eq!(banded, whole);
    }
}

#[test]
fn band_geometry_of_rows() {
    let g = band_geometry((100, 200), 1, 175);
    assert_eq!(g.upper_left, (0, 175));
    assert_eq!(g.lower_right, (100, 176));
    assert_eq!(g.bounds, (100, 1));
    let last = band_geometry((4, 5), 2, 2);
    assert_eq!(last.upper_left, (0, 4));
    assert_eq!(last.lower_right, (4, 5));
    assert_eq!(last.bounds, (4, 1));
}
