use backend::error::AppError;
use backend::images::{
    compress_image, effective_format, fit_image, prepare_image, process_image_upload,
    store_image, target_dimensions, write_image, ImageKind, UploadedFile, JPEG_QUALITY,
    MAX_IMAGE_DIMENSION,
};
use image::{DynamicImage, GenericImageView, ImageFormat};
use std::io::Cursor;

fn picture(width: u32, height: u32) -> DynamicImage {
    let mut img = image::RgbImage::new(width, height);
    for (x, y, pixel) in img.enumerate_pixels_mut() {
        *pixel = image::Rgb([(x % 251) as u8, (y % 241) as u8, ((x + y) % 239) as u8]);
    }
    DynamicImage::ImageRgb8(img)
}

fn payload(img: &DynamicImage, format: ImageFormat) -> Vec<u8> {
    let mut out = Vec::new();
    img.write_to(&mut Cursor::new(&mut out), format).expect("encoding works");
    out
}

fn upload(content_type: Option<&str>, file_name: Option<&str>, data: Vec<u8>) -> UploadedFile {
    UploadedFile {
        content_type: content_type.map(|s| s.to_string()),
        file_name: file_name.map(|s| s.to_string()),
        data,
    }
}

#[test]
fn target_dimensions_exact_values() {
    assert_eq!(MAX_IMAGE_DIMENSION, 1920);
    assert_eq!(JPEG_QUALITY, 85);
    assert_eq!(target_dimensions(4000, 3000), (1920, 1440));
    assert_eq!(target_dimensions(3000, 4000), (1440, 1920));
    assert_eq!(target_dimensions(3840, 2160), (1920, 1080));
    assert_eq!(target_dimensions(1921, 1080), (1920, 1079));
    assert_eq!(target_dimensions(2000, 2000), (1920, 1920));
    assert_eq!(target_dimensions(1920, 1920), (1920, 1920));
    assert_eq!(target_dimensions(1920, 1080), (1920, 1080));
    assert_eq!(target_dimensions(1, 1), (1, 1));
    assert_eq!(target_dimensions(100, 1921), (99, 1920));
    assert_eq!(target_dimensions(4000, 1), (1920, 1));
    assert_eq!(target_dimensions(u32::MAX, u32::MAX), (1920, 1920));
    assert_eq!(target_dimensions(u32::MAX, 1), (1920, 1));
}

#[test]
fn aspect_ratio_is_kept_within_a_pixel() {
    for (w, h) in [(4000u32, 3000u32), (1921, 7), (2500, 2499), (5000, 333), (1000, 2777)] {
        let (nw, nh) = target_dimensions(w, h);
        assert_eq!(nw.max(nh), 1920);
        let (long, short, scaled) = if w >= h { (w, h, nh) } else { (h, w, nw) };
        let exact = 1920u64 * short as u64;
        assert!((scaled as u64 - 1) * (long as u64) < exact);
        assert!(exact < (scaled as u64 + 1) * long as u64);
    }
}

#[test]
fn large_picture_is_scaled_down() {
    let fitted = fit_image(picture(1930, 20));
    assert_eq!(fitted.dimensions(), (1920, 19));
    let fitted = fit_image(picture(16, 1925));
    assert_eq!(fitted.dimensions(), (15, 1920));
}

#[test]
fn small_picture_keeps_its_size() {
    let original = picture(64, 48);
    let fitted = fit_image(original.clone());
    assert_eq!(fitted.dimensions(), (64, 48));
    assert_eq!(fitted, original);
}

#[test]
fn uploaded_large_png_is_stored_scaled() {
    let data = payload(&picture(1925, 11), ImageFormat::Png);
    let (bytes, mime) = process_image_upload(Some(upload(Some("image/png"), None, data)))
        .expect("a PNG is accepted")
        .expect("a file was supplied");
    assert_eq!(mime, "image/png");
    let stored = image::load_from_memory_with_format(&bytes, ImageFormat::Png).unwrap();
    assert_eq!(stored.dimensions(), (1920, 10));
}

#[test]
fn png_stays_png_and_the_others_become_jpeg() {
    let img = picture(40, 30);
    let png = payload(&img, ImageFormat::Png);
    let jpeg = payload(&img, ImageFormat::Jpeg);
    let gif = payload(&img, ImageFormat::Gif);

    let (bytes, mime) = compress_image(png.clone(), ImageKind::Png).unwrap();
    assert_eq!(mime, "image/png");
    assert_eq!(&bytes[..8], &[0x89, b'P', b'N', b'G', 0x0d, 0x0a, 0x1a, 0x0a]);
    assert_eq!(image::load_from_memory_with_format(&bytes, ImageFormat::Png).unwrap(), img);

    for (data, kind) in [(jpeg, ImageKind::Jpeg), (gif, ImageKind::Gif)] {
        let (bytes, mime) = compress_image(data, kind).unwrap();
        assert_eq!(mime, "image/jpeg");
        assert_eq!(&bytes[..2], &[0xff, 0xd8]);
        let stored = image::load_from_memory_with_format(&bytes, ImageFormat::Jpeg).unwrap();
        assert_eq!(stored.dimensions(), (40, 30));
    }
    assert_eq!(ImageKind::Png.output_format(), ImageKind::Png);
    assert_eq!(ImageKind::Jpeg.output_format(), ImageKind::Jpeg);
    assert_eq!(ImageKind::Gif.output_format(), ImageKind::Jpeg);
    assert_eq!(ImageKind::Gif.mime_type(), "image/gif");
}

#[test]
fn jpeg_is_written_at_the_fixed_quality() {
    let img = picture(33, 21);
    let (bytes, _) = store_image(img.clone(), ImageKind::Jpeg).unwrap();
    let mut expected = Vec::new();
    let encoder = image::codecs::jpeg::JpegEncoder::new_with_quality(Cursor::new(&mut expected), 85);
    img.write_with_encoder(encoder).unwrap();
    assert_eq!(bytes, expected);
}

#[test]
fn picture_with_transparency_is_stored_as_jpeg_without_it() {
    let img = DynamicImage::ImageRgba8(image::RgbaImage::from_pixel(5, 4, image::Rgba([9, 8, 7, 6])));
    let (bytes, mime) = store_image(img, ImageKind::Gif).unwrap();
    assert_eq!(mime, "image/jpeg");
    let stored = image::load_from_memory_with_format(&bytes, ImageFormat::Jpeg).unwrap();
    assert_eq!(stored.dimensions(), (5, 4));
    assert_eq!(stored.color(), image::ColorType::Rgb8);
}

#[test]
fn payload_of_another_format_is_invalid_input() {
    let png = payload(&picture(8, 8), ImageFormat::Png);
    assert_eq!(
        compress_image(png, ImageKind::Jpeg),
        Err(AppError::InvalidInput("Failed to decode image".to_string()))
    );
    let r = compress_image(b"not a picture".to_vec(), ImageKind::Png);
    assert_eq!(r, Err(AppError::InvalidInput("Failed to decode image".to_string())));
    assert_eq!(r.unwrap_err().status(), 400);
    assert_eq!(
        compress_image(Vec::new(), ImageKind::Gif),
        Err(AppError::InvalidInput("Failed to decode image".to_string()))
    );
}

#[test]
fn disallowed_type_is_unsupported() {
    let data = payload(&picture(8, 8), ImageFormat::Png);
    let r = process_image_upload(Some(upload(Some("image/bmp"), Some("photo.bmp"), data.clone())));
    assert_eq!(r, Err(AppError::UnsupportedMediaType));
    assert_eq!(r.unwrap_err().status(), 415);
    let r = process_image_upload(Some(upload(Some("image/bmp"), None, data.clone())));
    assert_eq!(r, Err(AppError::UnsupportedMediaType));
    let r = process_image_upload(Some(upload(Some("image/bmp"), Some("notes"), data.clone())));
    assert_eq!(r, Err(AppError::UnsupportedMediaType));
    let r = process_image_upload(Some(upload(None, Some("notes.txt"), data.clone())));
    assert_eq!(r, Err(AppError::UnsupportedMediaType));
    let r = process_image_upload(Some(upload(None, None, data)));
    assert_eq!(r, Err(AppError::UnsupportedMediaType));
}

#[test]
fn no_file_is_no_failure() {
    assert_eq!(process_image_upload(None), Ok(None));
}

#[test]
fn format_comes_from_the_type_or_else_the_name() {
    let some = |s: &str| Some(s.to_string());
    assert_eq!(effective_format(&some("image/jpeg"), &None), Ok(ImageKind::Jpeg));
    assert_eq!(effective_format(&some("image/png"), &some("x.gif")), Ok(ImageKind::Png));
    assert_eq!(effective_format(&some("IMAGE/GIF"), &None), Ok(ImageKind::Gif));
    assert_eq!(effective_format(&some("image/jpg"), &None), Err(AppError::UnsupportedMediaType));
    assert_eq!(effective_format(&some("image/jpg"), &some("x.txt")), Err(AppError::UnsupportedMediaType));
    assert_eq!(effective_format(&some("text/plain"), &some("x.png")), Ok(ImageKind::Png));
    assert_eq!(effective_format(&some("application/octet-stream"), &some("photo.JPG")), Ok(ImageKind::Jpeg));
    assert_eq!(effective_format(&some("image/bmp"), &some("anim.gif")), Ok(ImageKind::Gif));
    assert_eq!(effective_format(&some("image/gif"), &some("photo.bmp")), Ok(ImageKind::Gif));
    assert_eq!(effective_format(&None, &some("photo.jpg")), Ok(ImageKind::Jpeg));
    assert_eq!(effective_format(&None, &some("photo.JPEG")), Ok(ImageKind::Jpeg));
    assert_eq!(effective_format(&None, &some("archive.tar.png")), Ok(ImageKind::Png));
    assert_eq!(effective_format(&None, &some("anim.gif")), Ok(ImageKind::Gif));
    assert_eq!(effective_format(&None, &some("png")), Ok(ImageKind::Png));
    assert_eq!(effective_format(&None, &some("photo.png.")), Err(AppError::UnsupportedMediaType));
    assert_eq!(effective_format(&None, &some("photo.webp")), Err(AppError::UnsupportedMediaType));
    assert_eq!(effective_format(&None, &some("")), Err(AppError::UnsupportedMediaType));
    assert_eq!(ImageKind::from_content_type("image/png"), Some(ImageKind::Png));
    assert_eq!(ImageKind::from_content_type("image/png; q=1"), None);
    assert_eq!(ImageKind::from_file_name("a.b.Gif"), Some(ImageKind::Gif));
}

#[test]
fn upload_by_name_is_processed() {
    let data = payload(&picture(12, 10), ImageFormat::Gif);
    let (bytes, mime) = process_image_upload(Some(upload(None, Some("anim.gif"), data)))
        .unwrap()
        .unwrap();
    assert_eq!(mime, "image/jpeg");
    let stored = image::load_from_memory_with_format(&bytes, ImageFormat::Jpeg).unwrap();
    assert_eq!(stored.dimensions(), (12, 10));
}

#[test]
fn empty_picture_cannot_be_encoded() {
    for kind in [ImageKind::Png, ImageKind::Jpeg, ImageKind::Gif] {
        assert_eq!(
            store_image(DynamicImage::new_rgb8(0, 0), kind),
            Err(AppError::InvalidInput("Failed to encode image".to_string()))
        );
    }
    // A picture without height that is too wide gets the least height there is.
    let (bytes, mime) = store_image(DynamicImage::new_rgb8(2000, 0), ImageKind::Png).unwrap();
    assert_eq!(mime, "image/png");
    let stored = image::load_from_memory_with_format(&bytes, ImageFormat::Png).unwrap();
    assert_eq!(stored.dimensions(), (1920, 1));
}

#[test]
fn foreign_type_with_an_accepted_name_is_taken_by_the_name() {
    let data = payload(&picture(10, 10), ImageFormat::Png);
    let file = upload(Some("application/octet-stream"), Some("photo.png"), data.clone());
    let (bytes, mime) = process_image_upload(Some(file)).unwrap().unwrap();
    assert_eq!(mime, "image/png");
    let stored = image::load_from_memory_with_format(&bytes, ImageFormat::Png).unwrap();
    assert_eq!(stored.dimensions(), (10, 10));
    // The name says JPEG, the payload is PNG: taken as JPEG, it does not decode.
    let file = upload(Some("image/bmp"), Some("photo.jpg"), data);
    assert_eq!(
        process_image_upload(Some(file)),
        Err(AppError::InvalidInput("Failed to decode image".to_string()))
    );
}

#[test]
fn picture_that_is_written_has_the_stored_size() {
    let rgba = DynamicImage::ImageRgba8(image::RgbaImage::from_pixel(1930, 20, image::Rgba([9, 8, 7, 6])));
    for kind in [ImageKind::Jpeg, ImageKind::Gif] {
        let prepared = prepare_image(rgba.clone(), kind);
        assert_eq!(prepared.dimensions(), (1920, 19));
        assert_eq!(prepared.color(), image::ColorType::Rgb8);
    }
    let prepared = prepare_image(rgba.clone(), ImageKind::Png);
    assert_eq!(prepared.dimensions(), (1920, 19));
    assert_eq!(prepared.color(), image::ColorType::Rgba8);
    let small = picture(7, 5);
    assert_eq!(prepare_image(small.clone(), ImageKind::Png), small);
    assert_eq!(prepare_image(small.clone(), ImageKind::Jpeg).dimensions(), (7, 5));
}

#[test]
fn written_bytes_carry_the_label_of_the_stored_format() {
    let img = picture(6, 4);
    let (png, mime) = write_image(&img, ImageKind::Png).unwrap();
    assert_eq!(mime, "image/png");
    assert_eq!(&png[..4], &[0x89, b'P', b'N', b'G']);
    for kind in [ImageKind::Jpeg, ImageKind::Gif] {
        let (jpeg, mime) = write_image(&img, kind).unwrap();
        assert_eq!(mime, "image/jpeg");
        assert_eq!(&jpeg[..2], &[0xff, 0xd8]);
    }
    assert_eq!(
        write_image(&DynamicImage::new_rgb8(0, 0), ImageKind::Png),
        Err(AppError::InvalidInput("Failed to encode image".to_string()))
    );
}
