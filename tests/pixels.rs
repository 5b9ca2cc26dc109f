use tetris_env::environment::{Environment, HEIGHT, WIDTH};

#[test]
fn rgb_drops_alpha_and_keeps_order() {
    let rgb = Environment::rgb_pixels(&[0x11223344, 0xAABBCCDD]);
    assert_eq!(rgb, vec![0x11, 0x22, 0x33, 0xAA, 0xBB, 0xCC]);
}

#[test]
fn rgb_of_empty_frame_is_empty() {
    assert!(Environment::rgb_pixels(&[]).is_empty());
}

#[test]
fn rgb_of_full_frame_has_three_bytes_per_pixel() {
    let frame: Vec<u32> = (0..(WIDTH * HEIGHT) as u32).map(|i| i << 8 | 0xFF).collect();
    let rgb = Environment::rgb_pixels(&frame);
    assert_eq!(rgb.len(), WIDTH * HEIGHT * 3);
    let last = WIDTH * HEIGHT - 1;
    assert_eq!(rgb[3 * last], ((last as u32) >> 16) as u8);
    assert_eq!(rgb[3 * last + 1], ((last as u32) >> 8) as u8);
    assert_eq!(rgb[3 * last + 2], last as u8);
}

#[test]
fn borrowed_frame_copy_is_independent_snapshot() {
    let mut frame: Vec<u32> = vec![0xFF0000FF; 4];
    let snapshot = Environment::rgb_pixels(&frame);
    frame[0] = 0x00FF00FF;
    assert_eq!(&snapshot[0..3], &[0xFF, 0x00, 0x00]);
    assert_eq!(&Environment::rgb_pixels(&frame)[0..3], &[0x00, 0xFF, 0x00]);
}
