use explorer::color::rgb_to_u32;
use explorer::iterations::{get_pixels, julia_pixels, mandelbrot_pixels, rev_appended};

fn label(col: usize, row: usize) -> u32 {
    (row * 100 + col) as u32
}

#[test]
fn rgb_packs_red_green_blue() {
    assert_eq!(rgb_to_u32(0x12, 0x34, 0x56), 0x0012_3456);
    assert_eq!(rgb_to_u32(255, 255, 255), 0x00FF_FFFF);
    assert_eq!(rgb_to_u32(0, 18, 25), 0x0000_1219);
    assert_eq!(rgb_to_u32(255, 0, 0), 0x00FF_0000);
    assert_eq!(rgb_to_u32(0, 0, 0), 0);
}

#[test]
fn get_pixels_is_row_major() {
    let v = get_pixels(7, 3, 3, label);
    assert_eq!(v, vec![0, 1, 2, 100, 101, 102, 200]);
}

#[test]
fn get_pixels_none() {
    assert!(get_pixels(0, 0, 0, label).is_empty());
}

#[test]
fn mandelbrot_pixels_cover_the_grid() {
    let v = mandelbrot_pixels(3, 2, label);
    assert_eq!(v, vec![0, 1, 2, 100, 101, 102]);
}

#[test]
fn mandelbrot_pixels_large_grid_keeps_order() {
    let v = mandelbrot_pixels(300, 200, label);
    assert_eq!(v.len(), 60_000);
    for (i, c) in v.iter().enumerate() {
        assert_eq!(*c, label(i % 300, i / 300));
    }
}

#[test]
fn julia_symmetry_even_even() {
    let v = julia_pixels(4, 4, label);
    assert_eq!(v.len(), 16);
    for i in 0..16 {
        assert_eq!(v[i], v[15 - i]);
    }
    for i in 0..8 {
        assert_eq!(v[i], label(i % 4, i / 4));
    }
}

#[test]
fn julia_symmetry_odd_odd() {
    let v = julia_pixels(5, 5, label);
    assert_eq!(v.len(), 25);
    for i in 0..25 {
        assert_eq!(v[i], v[24 - i]);
    }
    for i in 0..13 {
        assert_eq!(v[i], label(i % 5, i / 5));
    }
    // the center pixel is computed once, in place
    assert_eq!(v[12], label(2, 2));
    assert_eq!(v.iter().filter(|c| **c == label(2, 2)).count(), 1);
}

#[test]
fn julia_second_half_is_the_half_turn() {
    let v = julia_pixels(4, 3, label);
    assert_eq!(v, vec![0, 1, 2, 3, 100, 101, 101, 100, 3, 2, 1, 0]);
}

#[test]
fn julia_odd_even_grid() {
    let v = julia_pixels(3, 2, label);
    assert_eq!(v, vec![0, 1, 2, 2, 1, 0]);
}

#[test]
fn julia_degenerate_grids_are_empty() {
    assert!(julia_pixels(0, 7, label).is_empty());
    assert!(julia_pixels(7, 0, label).is_empty());
    assert!(mandelbrot_pixels(0, 0, label).is_empty());
}

#[test]
fn julia_single_pixel() {
    assert_eq!(julia_pixels(1, 1, label), vec![0]);
}

#[test]
fn rev_appended_even_total() {
    assert_eq!(rev_appended(vec![1, 2, 3], 6), vec![1, 2, 3, 3, 2, 1]);
}

#[test]
fn rev_appended_odd_total_keeps_center_once() {
    assert_eq!(rev_appended(vec![1, 2, 3], 5), vec![1, 2, 3, 2, 1]);
    assert_eq!(rev_appended(vec![], 0), Vec::<u32>::new());
}
