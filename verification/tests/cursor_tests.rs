use scap::cursor::{composite_cursor, CursorImage};

fn pixel(a: u32, c2: u32, c1: u32, c0: u32) -> u32 {
    (a << 24) | (c2 << 16) | (c1 << 8) | c0
}

#[test]
fn opaque_cursor_pixel_overwrites_image_pixel() {
    // 2x2 image, all channels 100; 1x1 opaque cursor at the image origin.
    let mut img = vec![100u8; 16];
    let cursor = CursorImage {
        width: 1,
        height: 1,
        pixels: vec![pixel(255, 30, 20, 10)],
    };
    composite_cursor(&mut img, 0, 0, 2, 2, &cursor, 0, 0);
    assert_eq!(&img[0..4], &[10, 20, 30, 100]);
    assert_eq!(&img[4..], &[100u8; 12]);
}

#[test]
fn transparent_cursor_pixel_leaves_image_untouched() {
    let mut img = vec![100u8; 16];
    let cursor = CursorImage {
        width: 2,
        height: 2,
        pixels: vec![0, 0, 0, 0],
    };
    composite_cursor(&mut img, 0, 0, 2, 2, &cursor, 0, 0);
    assert_eq!(img, vec![100u8; 16]);
}

#[test]
fn half_transparent_pixel_blends() {
    // alpha 128, premultiplied channel values 64: the image value 100 fades
    // by the remaining alpha: 64 + (100*127 + 127)/255 = 64 + 50 = 114.
    let mut img = vec![100u8; 8];
    let cursor = CursorImage {
        width: 1,
        height: 1,
        pixels: vec![pixel(128, 64, 64, 64)],
    };
    composite_cursor(&mut img, 0, 0, 2, 1, &cursor, 0, 0);
    assert_eq!(&img[0..4], &[114, 114, 114, 100]);
    assert_eq!(&img[4..8], &[100, 100, 100, 100]);
}

#[test]
fn cursor_outside_rect_is_skipped() {
    let mut img = vec![7u8; 16];
    let cursor = CursorImage {
        width: 2,
        height: 2,
        pixels: vec![pixel(255, 1, 1, 1); 4],
    };
    // Top-left of the cursor left of the capture rectangle: skipped whole.
    composite_cursor(&mut img, 10, 10, 2, 2, &cursor, 9, 10);
    assert_eq!(img, vec![7u8; 16]);
    // Below the rectangle: skipped as well.
    composite_cursor(&mut img, 10, 10, 2, 2, &cursor, 10, 12);
    assert_eq!(img, vec![7u8; 16]);
}

#[test]
fn cursor_is_clipped_at_the_far_edges() {
    // 2x2 image, 2x2 opaque cursor at (1, 1): only the bottom-right image
    // pixel is covered, by the cursor's top-left pixel.
    let mut img = vec![50u8; 16];
    let cursor = CursorImage {
        width: 2,
        height: 2,
        pixels: vec![
            pixel(255, 3, 2, 1),
            pixel(255, 6, 5, 4),
            pixel(255, 9, 8, 7),
            pixel(255, 12, 11, 10),
        ],
    };
    composite_cursor(&mut img, 0, 0, 2, 2, &cursor, 1, 1);
    assert_eq!(&img[0..12], &[50u8; 12]);
    assert_eq!(&img[12..16], &[1, 2, 3, 50]);
}

#[test]
fn window_relative_rect_offsets_apply() {
    // Capture rectangle starts at (5, 5); cursor at (6, 5) covers the
    // second pixel of the first row.
    let mut img = vec![0u8; 16];
    let cursor = CursorImage {
        width: 1,
        height: 1,
        pixels: vec![pixel(255, 33, 22, 11)],
    };
    composite_cursor(&mut img, 5, 5, 2, 2, &cursor, 6, 5);
    assert_eq!(&img[0..4], &[0, 0, 0, 0]);
    assert_eq!(&img[4..8], &[11, 22, 33, 0]);
    assert_eq!(&img[8..], &[0u8; 8]);
}
