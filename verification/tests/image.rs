use raybench::image::{derived_height, Pixels, Rgb};
use raybench::text::decimal_string;

#[test]
fn decimal_zero() {
    assert_eq!(decimal_string(0), "0");
}

#[test]
fn decimal_single_digit() {
    assert_eq!(decimal_string(7), "7");
}

#[test]
fn decimal_two_digits() {
    assert_eq!(decimal_string(56), "56");
}

#[test]
fn decimal_channel_max() {
    assert_eq!(decimal_string(255), "255");
}

#[test]
fn decimal_largest() {
    assert_eq!(decimal_string(u64::MAX), "18446744073709551615");
}

#[test]
fn pixel_text_red() {
    let c = Rgb::new(255, 0, 0);
    assert_eq!(c.write_pixel(), "255 0 0 ");
}

#[test]
fn pixel_text_mixed() {
    let c = Rgb::new(12, 3, 245);
    assert_eq!(c.write_pixel(), "12 3 245 ");
}

#[test]
fn fresh_buffer_is_black() {
    let img = Pixels::new(3, 2);
    assert_eq!(img.pixels.len(), 2);
    for row in &img.pixels {
        assert_eq!(row.len(), 3);
        for cell in row {
            assert_eq!(*cell, Rgb::new(0, 0, 0));
        }
    }
}

#[test]
fn set_pixel_leaves_neighbors() {
    let mut img = Pixels::new(2, 2);
    img.set_pixel(1, 0, Rgb::new(9, 8, 7));
    assert_eq!(img.pixels[0][1], Rgb::new(9, 8, 7));
    assert_eq!(img.pixels[0][0], Rgb::new(0, 0, 0));
    assert_eq!(img.pixels[1][0], Rgb::new(0, 0, 0));
    assert_eq!(img.pixels[1][1], Rgb::new(0, 0, 0));
}

#[test]
fn set_row_replaces_one_row() {
    let mut img = Pixels::new(2, 2);
    img.set_row(1, vec![Rgb::new(1, 2, 3), Rgb::new(4, 5, 6)]);
    assert_eq!(img.pixels[0], vec![Rgb::new(0, 0, 0), Rgb::new(0, 0, 0)]);
    assert_eq!(img.pixels[1], vec![Rgb::new(1, 2, 3), Rgb::new(4, 5, 6)]);
}

#[test]
fn write_single_red_pixel() {
    // the quantization the renderer applies to the color (1.0, 0.0, 0.0)
    let r = (255.999_f32 * 1.0) as u32;
    let g = (255.999_f32 * 0.0) as u32;
    let b = (255.999_f32 * 0.0) as u32;
    let mut img = Pixels::new(1, 1);
    img.set_pixel(0, 0, Rgb::new(r, g, b));
    assert_eq!(img.write(), "P3 1 1 255\n255 0 0 ");
}

#[test]
fn write_is_row_major() {
    let mut img = Pixels::new(2, 2);
    img.set_pixel(0, 0, Rgb::new(1, 2, 3));
    img.set_pixel(1, 0, Rgb::new(4, 5, 6));
    img.set_pixel(0, 1, Rgb::new(7, 8, 9));
    img.set_pixel(1, 1, Rgb::new(10, 11, 12));
    assert_eq!(img.write(), "P3 2 2 255\n1 2 3 4 5 6 7 8 9 10 11 12 ");
}

#[test]
fn write_twice_is_identical() {
    let mut img = Pixels::new(2, 1);
    img.set_pixel(0, 0, Rgb::new(100, 150, 200));
    img.set_pixel(1, 0, Rgb::new(0, 255, 0));
    assert_eq!(img.write(), img.write());
}

#[test]
fn height_of_hundred_wide_sixteen_nine() {
    assert_eq!(derived_height(100, 16, 9), 56);
}

#[test]
fn height_truncates() {
    assert_eq!(derived_height(101, 16, 9), 56);
    assert_eq!(derived_height(16, 16, 9), 9);
}
