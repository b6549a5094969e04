use zilog_silicon::frame::rgb24_to_rgba8;

#[test]
fn each_pixel_gets_its_colour_and_an_opaque_alpha() {
    let rgb = [1u8, 2, 3, 4, 5, 6];
    let mut rgba = vec![0u8; 8];
    rgb24_to_rgba8(&rgb, &mut rgba);
    assert_eq!(rgba, vec![1, 2, 3, 255, 4, 5, 6, 255]);
}

#[test]
fn only_the_pixels_both_buffers_hold_are_converted() {
    let rgb = [10u8, 20, 30, 40, 50, 60, 70];
    let mut rgba = vec![9u8; 13];
    rgb24_to_rgba8(&rgb, &mut rgba);
    assert_eq!(rgba, vec![10, 20, 30, 255, 40, 50, 60, 255, 9, 9, 9, 9, 9]);
    let mut small = vec![7u8; 5];
    rgb24_to_rgba8(&rgb, &mut small);
    assert_eq!(small, vec![10, 20, 30, 255, 7]);
}

#[test]
fn a_full_screen_frame_converts_every_pixel() {
    let (w, h) = (800usize, 600usize);
    let rgb: Vec<u8> = (0..w * h * 3).map(|i| (i % 251) as u8).collect();
    let mut rgba = vec![0u8; w * h * 4];
    rgb24_to_rgba8(&rgb, &mut rgba);
    for p in 0..w * h {
        assert_eq!(&rgba[4 * p..4 * p + 3], &rgb[3 * p..3 * p + 3]);
        assert_eq!(rgba[4 * p + 3], 255);
    }
}
