use plix::frame::FrameImage;

fn padded_rows(rows: &[Vec<[u8; 4]>], aligned_width: usize) -> Vec<u8> {
    let mut data = Vec::new();
    for row in rows {
        for pixel in row {
            data.extend_from_slice(pixel);
        }
        for _ in row.len()..aligned_width {
            data.extend_from_slice(&[0xee, 0xee, 0xee, 0xee]);
        }
    }
    data
}

#[test]
fn a_single_pixel_comes_through_as_it_is() {
    let data = padded_rows(&[vec![[10, 20, 30, 40]]], 64);
    assert_eq!(data.len(), 256);
    let image = FrameImage::from_readback(&data, 1, 1, 64);
    assert_eq!(image.width(), 1);
    assert_eq!(image.height(), 1);
    assert_eq!(image.into_raw(), vec![10, 20, 30, 40]);
}

#[test]
fn rows_are_turned_upside_down_and_padding_is_cut_off() {
    let a = [1, 2, 3, 4];
    let b = [5, 6, 7, 8];
    let c = [9, 10, 11, 12];
    let d = [13, 14, 15, 16];
    let e = [17, 18, 19, 20];
    let f = [21, 22, 23, 24];
    let data = padded_rows(&[vec![a, b], vec![c, d], vec![e, f]], 64);
    let image = FrameImage::from_readback(&data, 2, 3, 64);
    assert_eq!(image.width(), 2);
    assert_eq!(image.height(), 3);
    let mut wanted = Vec::new();
    for pixel in [e, f, c, d, a, b] {
        wanted.extend_from_slice(&pixel);
    }
    assert_eq!(image.into_raw(), wanted);
}

#[test]
fn an_image_as_wide_as_its_rows_loses_nothing() {
    let row0: Vec<[u8; 4]> = (0..64u8).map(|x| [x, 0, 0, 255]).collect();
    let row1: Vec<[u8; 4]> = (0..64u8).map(|x| [x, 1, 0, 255]).collect();
    let data = padded_rows(&[row0.clone(), row1.clone()], 64);
    let image = FrameImage::from_readback(&data, 64, 2, 64);
    let mut wanted = Vec::new();
    for pixel in row1.iter().chain(row0.iter()) {
        wanted.extend_from_slice(pixel);
    }
    assert_eq!(image.into_raw(), wanted);
}

#[test]
fn an_image_without_rows_is_empty() {
    let image = FrameImage::from_readback(&Vec::new(), 5, 0, 64);
    assert_eq!(image.width(), 5);
    assert_eq!(image.height(), 0);
    assert!(image.into_raw().is_empty());
}

#[test]
fn an_image_without_columns_is_empty() {
    let data = vec![0u8; 64 * 4 * 2];
    let image = FrameImage::from_readback(&data, 0, 2, 64);
    assert_eq!(image.width(), 0);
    assert_eq!(image.height(), 2);
    assert!(image.into_raw().is_empty());
}

#[test]
fn small_images_fit_and_the_largest_does_not() {
    assert!(FrameImage::fits(0, 0));
    assert!(FrameImage::fits(800, 800));
    assert!(FrameImage::fits(u32::MAX, 1));
    assert!(!FrameImage::fits(u32::MAX, u32::MAX));
    let limit = isize::MAX as u128;
    let edge = 1u32 << 31;
    assert_eq!(FrameImage::fits(edge, edge), 4 * (edge as u128) * (edge as u128) <= limit);
}
