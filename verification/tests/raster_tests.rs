use vectorflow::raster::{Image, PixelBuffer};

fn image_2x2() -> Image {
    Image {
        data: vec![
            10, 11, 12, 13, 20, 21, 22, 23, //
            30, 31, 32, 33, 40, 41, 42, 43,
        ],
        width: 2,
        height: 2,
    }
}

#[test]
fn sample_reads_the_pixel() {
    let img = image_2x2();
    assert_eq!(img.sample(0, 0), Some((10, 11, 12)));
    assert_eq!(img.sample(1, 0), Some((20, 21, 22)));
    assert_eq!(img.sample(0, 1), Some((30, 31, 32)));
    assert_eq!(img.sample(1, 1), Some((40, 41, 42)));
}

#[test]
fn sample_clamps_to_the_last_row_and_column() {
    let img = image_2x2();
    assert_eq!(img.sample(9, 0), Some((20, 21, 22)));
    assert_eq!(img.sample(0, 9), Some((30, 31, 32)));
    assert_eq!(img.sample(usize::MAX, usize::MAX), Some((40, 41, 42)));
}

#[test]
fn sample_of_empty_image_is_none() {
    let img = Image { data: vec![], width: 0, height: 0 };
    assert_eq!(img.sample(0, 0), None);
    let img = Image { data: vec![1, 2, 3, 4], width: 0, height: 1 };
    assert_eq!(img.sample(0, 0), None);
}

#[test]
fn sample_past_the_bytes_is_none() {
    let img = Image { data: vec![1, 2, 3, 4, 5, 6], width: 2, height: 1 };
    assert_eq!(img.sample(0, 0), Some((1, 2, 3)));
    assert_eq!(img.sample(1, 0), None);
    let img = Image { data: vec![1, 2, 3, 4, 5, 6, 7], width: 2, height: 1 };
    assert_eq!(img.sample(1, 0), Some((5, 6, 7)));
}

#[test]
fn new_buffer_is_transparent_black() {
    let b = PixelBuffer::new(3, 2);
    assert_eq!(b.width(), 3);
    assert_eq!(b.height(), 2);
    assert_eq!(b.bytes().len(), 24);
    assert!(b.bytes().iter().all(|&v| v == 0));
}

#[test]
fn plot_writes_opaque_colour_at_the_pixel_only() {
    let mut b = PixelBuffer::new(3, 2);
    b.plot(2, 1, (7, 8, 9));
    let bytes = b.bytes();
    let i = (1 * 3 + 2) * 4;
    assert_eq!(&bytes[i..i + 4], &[7, 8, 9, 255]);
    for (j, v) in bytes.iter().enumerate() {
        if j < i || j >= i + 4 {
            assert_eq!(*v, 0);
        }
    }
}

#[test]
fn plot_off_the_raster_changes_nothing() {
    let mut b = PixelBuffer::new(3, 2);
    b.plot(1, 1, (1, 1, 1));
    let before = b.bytes().to_vec();
    b.plot(-1, 0, (5, 5, 5));
    b.plot(3, 0, (5, 5, 5));
    b.plot(0, -1, (5, 5, 5));
    b.plot(0, 2, (5, 5, 5));
    b.plot(isize::MIN, isize::MAX, (5, 5, 5));
    assert_eq!(b.bytes(), &before[..]);
}

#[test]
fn second_plot_overwrites_the_first() {
    let mut b = PixelBuffer::new(2, 2);
    b.plot(0, 1, (1, 2, 3));
    b.plot(0, 1, (4, 5, 6));
    assert_eq!(&b.bytes()[8..12], &[4, 5, 6, 255]);
    assert_eq!(&b.bytes()[0..8], &[0; 8]);
}

#[test]
fn clear_makes_every_byte_zero() {
    let mut b = PixelBuffer::new(4, 4);
    b.plot(0, 0, (1, 2, 3));
    b.plot(3, 3, (4, 5, 6));
    b.clear();
    assert_eq!(b.width(), 4);
    assert_eq!(b.height(), 4);
    assert_eq!(b.bytes().len(), 64);
    assert!(b.bytes().iter().all(|&v| v == 0));
}

#[test]
fn empty_buffer_accepts_no_pixel() {
    let mut b = PixelBuffer::new(0, 5);
    b.plot(0, 0, (1, 2, 3));
    assert_eq!(b.bytes().len(), 0);
}

#[test]
fn plot_all_last_point_wins_and_rest_stays_transparent() {
    let mut b = PixelBuffer::new(3, 3);
    b.plot(2, 2, (9, 9, 9));
    b.clear();
    b.plot_all(&[
        (0, 0, (1, 1, 1)),
        (1, 1, (2, 2, 2)),
        (0, 0, (3, 3, 3)),
        (5, 5, (4, 4, 4)),
        (-1, 0, (5, 5, 5)),
    ]);
    let bytes = b.bytes();
    assert_eq!(&bytes[0..4], &[3, 3, 3, 255]);
    let i = (1 * 3 + 1) * 4;
    assert_eq!(&bytes[i..i + 4], &[2, 2, 2, 255]);
    for (j, v) in bytes.iter().enumerate() {
        if j >= 4 && (j < i || j >= i + 4) {
            assert_eq!(*v, 0);
        }
    }
}

#[test]
fn plot_all_of_nothing_changes_nothing() {
    let mut b = PixelBuffer::new(2, 2);
    b.plot(1, 0, (6, 7, 8));
    let before = b.bytes().to_vec();
    b.plot_all(&[]);
    assert_eq!(b.bytes(), &before[..]);
}
