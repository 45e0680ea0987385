use raytracer::image::{push_decimal, Image, Pixel};

const BLACK: Pixel = Pixel { r: 0, g: 0, b: 0 };

#[test]
fn decimal_digits_of_numbers() {
    let mut out = Vec::new();
    push_decimal(&mut out, 0);
    assert_eq!(out, b"0".to_vec());
    let mut out = b"x".to_vec();
    push_decimal(&mut out, 1024);
    assert_eq!(out, b"x1024".to_vec());
    let mut out = Vec::new();
    push_decimal(&mut out, 768);
    push_decimal(&mut out, 10);
    assert_eq!(out, b"76810".to_vec());
}

#[test]
fn new_image_is_black() {
    let img = Image::new(3, 2);
    assert_eq!(img.width(), 3);
    assert_eq!(img.height(), 2);
    for j in 0..2 {
        for i in 0..3 {
            assert_eq!(img.pixel(i, j), BLACK);
        }
    }
}

#[test]
fn set_pixel_changes_only_that_pixel() {
    let mut img = Image::new(3, 2);
    let p = Pixel { r: 1, g: 2, b: 3 };
    img.set_pixel(2, 1, p);
    assert_eq!(img.pixel(2, 1), p);
    assert_eq!(img.pixel(1, 2 - 1), BLACK);
    assert_eq!(img.pixel(2, 0), BLACK);
}

#[test]
fn encode_writes_header_then_rows_top_first() {
    let mut img = Image::new(2, 2);
    img.set_pixel(0, 0, Pixel { r: 1, g: 2, b: 3 });
    img.set_pixel(1, 0, Pixel { r: 4, g: 5, b: 6 });
    img.set_pixel(0, 1, Pixel { r: 7, g: 8, b: 9 });
    img.set_pixel(1, 1, Pixel { r: 10, g: 11, b: 12 });
    let mut expected = b"P6\n2 2\n255\n".to_vec();
    expected.extend_from_slice(&[1, 2, 3, 4, 5, 6, 7, 8, 9, 10, 11, 12]);
    assert_eq!(img.encode_ppm(), expected);
}

#[test]
fn encode_background_frame() {
    let (w, h) = (4, 3);
    let bg = Pixel { r: 51, g: 178, b: 204 };
    let mut img = Image::new(w, h);
    for j in 0..h {
        for i in 0..w {
            img.set_pixel(i, j, bg);
        }
    }
    let bytes = img.encode_ppm();
    let header = b"P6\n4 3\n255\n";
    assert_eq!(&bytes[..header.len()], &header[..]);
    assert_eq!(bytes.len(), header.len() + w * h * 3);
    for px in bytes[header.len()..].chunks(3) {
        assert_eq!(px, &[51, 178, 204]);
    }
}

#[test]
fn encode_empty_frame_is_header_only() {
    let img = Image::new(0, 5);
    assert_eq!(img.encode_ppm(), b"P6\n0 5\n255\n".to_vec());
}

#[test]
fn encode_full_size_header() {
    let img = Image::new(1024, 768);
    let bytes = img.encode_ppm();
    let header = b"P6\n1024 768\n255\n";
    assert_eq!(&bytes[..header.len()], &header[..]);
    assert_eq!(bytes.len(), header.len() + 1024 * 768 * 3);
    assert!(bytes[header.len()..].iter().all(|&b| b == 0));
}
