use thumbnailer::images::resize_to;

#[test]
fn resize_hits_exact_dimensions() {
    let img = image::DynamicImage::new_rgb8(300, 400);
    let out = resize_to(&img, 100, 50).unwrap();
    assert_eq!(out.width(), 100);
    assert_eq!(out.height(), 50);
}

#[test]
fn resize_discards_aspect_ratio() {
    let img = image::DynamicImage::new_rgb8(300, 400);
    let out = resize_to(&img, 100, 100).unwrap();
    assert_eq!(out.width(), 100);
    assert_eq!(out.height(), 100);
}

#[test]
fn resize_can_upscale() {
    let img = image::DynamicImage::new_rgb8(10, 10);
    let out = resize_to(&img, 200, 200).unwrap();
    assert_eq!(out.width(), 200);
    assert_eq!(out.height(), 200);
}

#[test]
fn resize_rejects_zero_width() {
    let img = image::DynamicImage::new_rgb8(10, 10);
    assert!(resize_to(&img, 0, 50).is_none());
}

#[test]
fn resize_rejects_zero_height() {
    let img = image::DynamicImage::new_rgb8(10, 10);
    assert!(resize_to(&img, 50, 0).is_none());
}

#[test]
fn corrupt_bytes_do_not_decode() {
    assert!(image::load_from_memory(b"definitely not an image").is_err());
}

#[test]
fn converted_bytes_decode_as_canonical_format() {
    let img = image::DynamicImage::new_rgb8(12, 8);
    let mut bytes: Vec<u8> = Vec::new();
    img.write_to(&mut std::io::Cursor::new(&mut bytes), image::ImageFormat::Png)
        .unwrap();
    let format = image::guess_format(&bytes).unwrap();
    assert_eq!(format, image::ImageFormat::Png);
    let back = image::load_from_memory(&bytes).unwrap();
    assert_eq!(back.width(), 12);
    assert_eq!(back.height(), 8);
}

#[test]
fn canonical_encoder_is_deterministic() {
    let img = image::DynamicImage::new_rgb8(20, 20);
    let mut first: Vec<u8> = Vec::new();
    let mut second: Vec<u8> = Vec::new();
    img.write_to(&mut std::io::Cursor::new(&mut first), image::ImageFormat::Png)
        .unwrap();
    img.write_to(&mut std::io::Cursor::new(&mut second), image::ImageFormat::Png)
        .unwrap();
    assert_eq!(first, second);
}
