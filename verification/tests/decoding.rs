//! Decoding round trips: a known solid-color image, encoded with the real
//! codec, decoded by the library and uploaded through the frame flow.

use smithay_wallpaper::{
    decode, detect_format, DecodedImage, DrawPlan, Extent, IdRegistry, ImageKind, LoadMode, Rect,
    WallpaperState,
};

fn solid_png(width: u32, height: u32, rgba: [u8; 4]) -> Vec<u8> {
    let buf = image::RgbaImage::from_pixel(width, height, image::Rgba(rgba));
    let mut bytes = Vec::new();
    image::DynamicImage::ImageRgba8(buf)
        .write_to(&mut std::io::Cursor::new(&mut bytes), image::ImageFormat::Png)
        .expect("png encoding succeeds");
    bytes
}

#[test]
fn decode_recovers_dimensions_and_pixels() {
    let color = [3u8, 7, 250, 255];
    let bytes = solid_png(8, 6, color);
    let img = decode(&bytes).expect("a valid png decodes");
    assert_eq!(img.width(), 8);
    assert_eq!(img.height(), 6);
    let pixels = img.pixels();
    assert_eq!(pixels.len(), 8 * 6 * 4);
    for pixel in pixels.chunks(4) {
        assert_eq!(pixel, color);
    }
}

fn solid_jpeg(width: u32, height: u32, rgb: [u8; 3]) -> Vec<u8> {
    let buf = image::RgbImage::from_pixel(width, height, image::Rgb(rgb));
    let mut bytes = Vec::new();
    image::DynamicImage::ImageRgb8(buf)
        .write_to(&mut std::io::Cursor::new(&mut bytes), image::ImageFormat::Jpeg)
        .expect("jpeg encoding succeeds");
    bytes
}

#[test]
fn decode_rejects_garbage() {
    let bytes = b"not an encoded image at all".to_vec();
    assert!(decode(&bytes).is_err());
}

#[test]
fn format_is_recognized_by_signature() {
    let png = solid_png(2, 2, [1, 2, 3, 255]);
    assert_eq!(detect_format(&png), Some(ImageKind::Png));
    let jpeg = solid_jpeg(2, 2, [9, 9, 9]);
    assert_eq!(detect_format(&jpeg), Some(ImageKind::Jpeg));
    assert_eq!(detect_format(&b"GIF89a...".to_vec()), None);
    assert_eq!(detect_format(&Vec::new()), None);
}

#[test]
fn decode_accepts_jpeg() {
    let bytes = solid_jpeg(6, 4, [200, 100, 50]);
    let img = decode(&bytes).expect("a valid jpeg decodes");
    assert_eq!(img.width(), 6);
    assert_eq!(img.height(), 4);
    assert_eq!(img.pixels().len(), 6 * 4 * 4);
}

#[test]
fn decode_rejects_corrupt_body_behind_valid_signature() {
    let mut bytes = solid_png(4, 4, [1, 2, 3, 255]);
    bytes.truncate(12);
    assert_eq!(detect_format(&bytes), Some(ImageKind::Png));
    assert!(decode(&bytes).is_err());
}

#[test]
fn uploaded_texture_matches_source_color() {
    // The host's texture handle is a plain byte buffer here, so the test can
    // read back what the upload was given.
    let color = [40u8, 80, 120, 255];
    let bytes = solid_png(4, 4, color);
    let mut reg = IdRegistry::new();
    let mut st: WallpaperState<Vec<u8>> = WallpaperState::new(&mut reg, LoadMode::Deferred);
    let ticket = st.set();
    let frame = st.run(
        Some((ticket, decode(&bytes))),
        Rect { x: 0, y: 0, w: 4, h: 4 },
        Extent { w: 4, h: 4 },
        1,
    );
    assert!(frame.needs_upload(st.texture_slot()));
    let source = frame.upload_source().expect("the decoded image is current");
    let uploaded = source.pixels().clone();
    let plan = frame.draw(st.texture_slot(), Some(uploaded));
    assert_eq!(plan, Ok(DrawPlan::Blit { dest: Rect { x: 0, y: 0, w: 4, h: 4 } }));
    // readback: the cached texture's sampled pixel data matches the source color
    let texture = st.texture_slot().texture().expect("the slot is filled");
    assert_eq!(texture.len(), 4 * 4 * 4);
    for pixel in texture.chunks(4) {
        assert_eq!(pixel, color);
    }
}

#[test]
fn from_rgba8_demands_four_bytes_per_pixel() {
    assert!(DecodedImage::from_rgba8(2, 2, vec![0u8; 16]).is_some());
    assert!(DecodedImage::from_rgba8(2, 2, vec![0u8; 15]).is_none());
    assert!(DecodedImage::from_rgba8(2, 2, vec![0u8; 17]).is_none());
    let img = DecodedImage::from_rgba8(0, 0, Vec::new()).expect("an empty bitmap is well-formed");
    assert_eq!(img.width(), 0);
    assert_eq!(img.height(), 0);
    assert!(img.pixels().is_empty());
    let copy = img.clone();
    assert_eq!(copy.width(), 0);
}
