use image_api::{sniff, Image, ImageError, ImageFormat, PREVIEW_HEIGHT, PREVIEW_WIDTH};

const PNG_1X1: &[u8] = &[
    137, 80, 78, 71, 13, 10, 26, 10, 0, 0, 0, 13, 73, 72, 68, 82, 0, 0, 0, 1, 0, 0, 0, 1, 8, 6, 0,
    0, 0, 31, 21, 196, 137, 0, 0, 0, 4, 115, 66, 73, 84, 8, 8, 8, 8, 124, 8, 100, 136, 0, 0, 0, 11,
    73, 68, 65, 84, 8, 153, 99, 248, 15, 4, 0, 9, 251, 3, 253, 227, 85, 242, 156, 0, 0, 0, 0, 73,
    69, 78, 68, 174, 66, 96, 130,
];

// Start of image, then a baseline frame header of a 16 x 16 image.
const JPEG_HEADER: &[u8] = &[
    0xFF, 0xD8, 0xFF, 0xC0, 0x00, 0x11, 0x08, 0x00, 0x10, 0x00, 0x10, 0x03, 0x01, 0x22, 0x00, 0x02,
    0x11, 0x01, 0x03, 0x11, 0x01, 0xFF, 0xD9,
];

#[test]
fn sniff_recognises_png() {
    assert_eq!(sniff(PNG_1X1), Some(ImageFormat::Png));
}

#[test]
fn sniff_recognises_jpeg() {
    assert_eq!(sniff(JPEG_HEADER), Some(ImageFormat::Jpeg));
}

#[test]
fn sniff_rejects_empty_and_text() {
    assert_eq!(sniff(&[]), None);
    assert_eq!(sniff(b"just some text, not an image"), None);
}

#[test]
fn sniff_rejects_truncated_png() {
    assert_eq!(sniff(&PNG_1X1[..12]), None);
}

#[test]
fn create_accepts_png() {
    let img = Image::create("pixel".to_string(), PNG_1X1.to_vec()).unwrap();
    assert_eq!(img.name(), "pixel");
    assert_eq!(img.data(), &PNG_1X1.to_vec());
    assert_eq!(img.format(), ImageFormat::Png);
    assert_eq!(img.extension(), "png");
    assert_eq!(img.file_name(), "pixel.png");
}

#[test]
fn create_accepts_jpeg() {
    let img = Image::create("photo".to_string(), JPEG_HEADER.to_vec()).unwrap();
    assert_eq!(img.format(), ImageFormat::Jpeg);
    assert_eq!(img.extension(), "jpg");
    assert_eq!(img.file_name(), "photo.jpg");
}

#[test]
fn create_rejects_non_image() {
    let r = Image::create("doc".to_string(), b"%PDF-1.4".to_vec());
    assert_eq!(r.unwrap_err(), ImageError::UnsupportedImageFormat);
    let r = Image::create("empty".to_string(), vec![]);
    assert_eq!(r.unwrap_err(), ImageError::UnsupportedImageFormat);
}

#[test]
fn is_supported_type_matches_sniff() {
    assert!(Image::is_supported_type(PNG_1X1));
    assert!(Image::is_supported_type(JPEG_HEADER));
    assert!(!Image::is_supported_type(&[0, 1, 2, 3]));
}

#[test]
fn preview_is_named_after_original() {
    let img = Image::create("cat".to_string(), JPEG_HEADER.to_vec()).unwrap();
    let preview = img.generate_preview(Some(PNG_1X1.to_vec())).unwrap();
    assert_eq!(preview.name(), "preview_cat");
    assert_eq!(preview.data(), &PNG_1X1.to_vec());
    assert_eq!(preview.format(), ImageFormat::Png);
    assert_eq!(preview.file_name(), "preview_cat.png");
}

#[test]
fn preview_fails_when_resizer_fails() {
    let img = Image::create("cat".to_string(), PNG_1X1.to_vec()).unwrap();
    assert_eq!(img.generate_preview(None).unwrap_err(), ImageError::PreviewGeneration);
}

#[test]
fn preview_of_unrecognised_bytes_is_rejected() {
    let img = Image::create("cat".to_string(), PNG_1X1.to_vec()).unwrap();
    let r = img.generate_preview(Some(vec![1, 2, 3]));
    assert_eq!(r.unwrap_err(), ImageError::UnsupportedImageFormat);
}

#[test]
fn preview_size_is_one_hundred_square() {
    assert_eq!(PREVIEW_WIDTH, 100);
    assert_eq!(PREVIEW_HEIGHT, 100);
}
