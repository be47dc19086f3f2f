use windows_duo::picture::{
    mip_blit_levels, pad_picture, padded_extent, screen_extent, ScreenCapture, PAD_POINTS,
};

#[test]
fn screen_extent_rejects_empty_screens() {
    assert_eq!(screen_extent(1920, 1080), Some((1920, 1080)));
    assert_eq!(screen_extent(0, 1080), None);
    assert_eq!(screen_extent(1920, 0), None);
    assert_eq!(screen_extent(-1, 2), Some((u32::MAX, 2)));
}

#[test]
fn padded_extent_adds_the_margin_twice() {
    assert_eq!(padded_extent(1920, 1080, PAD_POINTS), (2160, 1320));
    assert_eq!(padded_extent(0, 0, 0), (0, 0));
}

#[test]
fn picture_sits_in_a_black_margin() {
    // A 2x1 screen: one blue-ish pixel and one red-ish pixel.
    let bgra = [1u8, 2, 3, 4, 5, 6, 7, 8];
    let capture = ScreenCapture { width: 2, height: 1, pixels: bgra.to_vec() };
    let padded = pad_picture(&capture.pixels, capture.width, capture.height, 1);
    // 4 x 3 pixels.
    assert_eq!(padded.len(), 4 * 3 * 4);
    let row = 4 * 4;
    assert!(padded[..row].iter().all(|&b| b == 0));
    assert_eq!(&padded[row..row + 4], &[0, 0, 0, 0]);
    assert_eq!(&padded[row + 4..row + 12], &bgra);
    assert_eq!(&padded[row + 12..2 * row], &[0, 0, 0, 0]);
    assert!(padded[2 * row..].iter().all(|&b| b == 0));
}

#[test]
fn padding_without_margin_copies_the_screen() {
    let bgra: Vec<u8> = (0u8..24).collect();
    assert_eq!(pad_picture(&bgra, 3, 2, 0), bgra);
}

#[test]
fn extra_source_bytes_are_ignored_and_empty_screens_give_black() {
    let bgra = [9u8; 12];
    let padded = pad_picture(&bgra, 1, 1, 0);
    assert_eq!(padded, vec![9, 9, 9, 9]);
    let black = pad_picture(&[], 0, 0, 2);
    assert_eq!(black.len(), 4 * 4 * 4);
    assert!(black.iter().all(|&b| b == 0));
}

#[test]
fn mip_levels_are_drawn_from_the_level_above() {
    assert_eq!(mip_blit_levels(0), vec![]);
    assert_eq!(mip_blit_levels(1), vec![]);
    assert_eq!(mip_blit_levels(4), vec![(0, 1), (1, 2), (2, 3)]);
}
