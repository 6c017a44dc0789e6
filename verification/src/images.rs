//! The image pipeline: which uploads are accepted, how large the stored
//! picture may be, and in which format it is stored.
//!
//! An upload is taken as the format that its declared content type names,
//! where that is JPEG, PNG or GIF, and else as the format that the extension
//! of its file name stands for; an upload with neither is refused.
//! A JPEG or GIF upload is stored as JPEG, a PNG upload stays PNG. A picture
//! that is wider or higher than [`MAX_IMAGE_DIMENSION`] is scaled down so
//! that its longer side is exactly that long.
//!
//! Decoding and resampling are the `image` crate's work, and what they make
//! of a payload may differ from machine to machine. The contracts here say
//! what does not: which uploads are refused, which size is stored, that a
//! picture within the limit is stored as it is, and in which format and
//! under which label the bytes are written.

use vstd::prelude::*;
use crate::error::AppError;
use crate::text::{chars_of, lowered, tail_is, text_of};

verus! {

/// Maximum dimension (width or height) for uploaded images.
pub const MAX_IMAGE_DIMENSION: u32 = 1920;

/// JPEG quality for compression (0-100).
pub const JPEG_QUALITY: u8 = 85;

/// The image formats that an upload may have.
#[derive(Clone, Copy, Debug, PartialEq, Eq, Structural)]
pub enum ImageKind {
    Jpeg,
    Png,
    Gif,
}

/// A file as the upload form delivers it.
#[derive(Clone, Debug)]
pub struct UploadedFile {
    /// The content type that the client declared, as `type/subtype`.
    pub content_type: Option<String>,
    /// The file name that the client gave.
    pub file_name: Option<String>,
    /// The payload.
    pub data: Vec<u8>,
}

/// A decoded picture of the `image` crate.
#[verifier::external_type_specification]
#[verifier::external_body]
pub struct ExDynamicImage(::image::DynamicImage);

/// The failure of a codec of the `image` crate.
#[verifier::external_type_specification]
#[verifier::external_body]
pub struct ExImageError(::image::ImageError);

/// Width and height of a picture, as `DynamicImage::dimensions` gives them.
pub uninterp spec fn image_size(img: ::image::DynamicImage) -> (u32, u32);

/// The picture that `DynamicImage::to_rgb8` makes of `img`: the same pixels
/// with three channels of eight bits.
pub uninterp spec fn as_rgb8(img: ::image::DynamicImage) -> ::image::DynamicImage;

/// The bytes that the JPEG encoder of the `image` crate writes for `img` at
/// the given quality, or `None` where it reports an error.
pub uninterp spec fn jpeg_bytes(img: ::image::DynamicImage, quality: u8) -> Option<Seq<u8>>;

/// The bytes that `DynamicImage::write_to` writes for `img` as PNG, or `None`
/// where it reports an error.
pub uninterp spec fn png_bytes(img: ::image::DynamicImage) -> Option<Seq<u8>>;

/// Calls `image::load_from_memory_with_format`. Nothing is claimed of the
/// outcome: whether a payload decodes, and to which picture, is the
/// decoder's to say, and its routines differ from machine to machine.
#[verifier::external_body]
fn decode(data: &Vec<u8>, kind: ImageKind) -> (r: Result<::image::DynamicImage, ::image::ImageError>)
{
    let format = match kind {
        ImageKind::Jpeg => ::image::ImageFormat::Jpeg,
        ImageKind::Png => ::image::ImageFormat::Png,
        ImageKind::Gif => ::image::ImageFormat::Gif,
    };
    ::image::load_from_memory_with_format(data.as_slice(), format)
}

/// Calls `DynamicImage::dimensions`; the contract names what it returns.
#[verifier::external_body]
fn dimensions(img: &::image::DynamicImage) -> (r: (u32, u32))
    ensures
        r == image_size(*img),
{
    ::image::GenericImageView::dimensions(img)
}

/// Calls `DynamicImage::resize_exact` with the Lanczos filter of window 3.
/// The contract claims only that the new picture has exactly the width and
/// height asked for, as the method's documentation says; its pixels come
/// of floating-point arithmetic and are not spoken of. Sizes above
/// [`MAX_IMAGE_DIMENSION`] are left out, so that the new buffer's length
/// cannot overflow.
#[verifier::external_body]
fn resample(img: &::image::DynamicImage, width: u32, height: u32) -> (r: ::image::DynamicImage)
    requires
        0 < width <= MAX_IMAGE_DIMENSION,
        0 < height <= MAX_IMAGE_DIMENSION,
    ensures
        image_size(r) == (width, height),
{
    img.resize_exact(width, height, ::image::imageops::FilterType::Lanczos3)
}

/// Calls `DynamicImage::to_rgb8` and wraps the buffer in a `DynamicImage`
/// again. The contract names the result and claims that it has the width
/// and height of `img`: a picture of that layout is copied, any other is
/// cast into a buffer that is made with the same width and height.
#[verifier::external_body]
fn to_rgb8(img: &::image::DynamicImage) -> (r: ::image::DynamicImage)
    ensures
        r == as_rgb8(*img),
        image_size(r) == image_size(*img),
{
    ::image::DynamicImage::ImageRgb8(img.to_rgb8())
}

/// Calls `DynamicImage::write_with_encoder` with a JPEG encoder made by
/// `JpegEncoder::new_with_quality` that writes into a fresh buffer. The
/// contract only names the bytes written.
#[verifier::external_body]
fn write_jpeg(img: &::image::DynamicImage, quality: u8) -> (r: Result<Vec<u8>, ::image::ImageError>)
    ensures
        match r {
            Ok(out) => jpeg_bytes(*img, quality) == Some(out@),
            Err(_) => jpeg_bytes(*img, quality) is None,
        },
{
    let mut out: Vec<u8> = Vec::new();
    let encoder = ::image::codecs::jpeg::JpegEncoder::new_with_quality(
        std::io::Cursor::new(&mut out),
        quality,
    );
    match img.write_with_encoder(encoder) {
        Ok(()) => Ok(out),
        Err(e) => Err(e),
    }
}

/// Calls `DynamicImage::write_to` with the PNG format and a fresh buffer.
/// The contract only names the bytes written.
#[verifier::external_body]
fn write_png(img: &::image::DynamicImage) -> (r: Result<Vec<u8>, ::image::ImageError>)
    ensures
        match r {
            Ok(out) => png_bytes(*img) == Some(out@),
            Err(_) => png_bytes(*img) is None,
        },
{
    let mut out: Vec<u8> = Vec::new();
    match img.write_to(&mut std::io::Cursor::new(&mut out), ::image::ImageFormat::Png) {
        Ok(()) => Ok(out),
        Err(e) => Err(e),
    }
}

impl ImageKind {
    /// The format in which an upload of this format is stored.
    pub open spec fn stored_as(self) -> ImageKind {
        match self {
            ImageKind::Png => ImageKind::Png,
            _ => ImageKind::Jpeg,
        }
    }

    /// The MIME label of this format.
    pub open spec fn mime(self) -> Seq<char> {
        match self {
            ImageKind::Jpeg => "image/jpeg"@,
            ImageKind::Png => "image/png"@,
            ImageKind::Gif => "image/gif"@,
        }
    }

    /// The format in which an upload of this format is stored: PNG stays
    /// PNG, the others become JPEG.
    pub fn output_format(self) -> (r: ImageKind)
        ensures
            r == self.stored_as(),
            r != ImageKind::Gif,
    {
        match self {
            ImageKind::Png => ImageKind::Png,
            _ => ImageKind::Jpeg,
        }
    }

    /// The MIME label of this format.
    pub fn mime_type(self) -> (r: String)
        ensures
            r@ == self.mime(),
    {
        match self {
            ImageKind::Jpeg => "image/jpeg".to_owned(),
            ImageKind::Png => "image/png".to_owned(),
            ImageKind::Gif => "image/gif".to_owned(),
        }
    }

    /// The format that a content type stands for, if it is an accepted one.
    pub fn from_content_type(content_type: &str) -> (r: Option<ImageKind>)
        ensures
            r == kind_of_content_type(content_type@),
    {
        let v = chars_of(content_type);
        assert(v@.subrange(0, v@.len() as int) =~= v@);
        if tail_is(&v, 0, "image/jpeg") {
            Some(ImageKind::Jpeg)
        } else if tail_is(&v, 0, "image/png") {
            Some(ImageKind::Png)
        } else if tail_is(&v, 0, "image/gif") {
            Some(ImageKind::Gif)
        } else {
            None
        }
    }

    /// The format that a file name's extension stands for, if it is an
    /// accepted one.
    pub fn from_file_name(name: &str) -> (r: Option<ImageKind>)
        ensures
            r == kind_of_extension(extension_of(name@)),
    {
        let v = chars_of(name);
        let mut start: usize = v.len();
        while start > 0 && v[start - 1] != '.'
            invariant
                start <= v@.len(),
                extension_start(v@, v@.len() as int) == extension_start(v@, start as int),
            decreases start,
        {
            start -= 1;
        }
        if tail_is(&v, start, "jpg") || tail_is(&v, start, "jpeg") {
            Some(ImageKind::Jpeg)
        } else if tail_is(&v, start, "png") {
            Some(ImageKind::Png)
        } else if tail_is(&v, start, "gif") {
            Some(ImageKind::Gif)
        } else {
            None
        }
    }
}

/// The format that a content type of the form `type/subtype` stands for,
/// whatever the case of its letters: one of the three accepted formats, or
/// none.
pub open spec fn kind_of_content_type(content_type: Seq<char>) -> Option<ImageKind> {
    let l = lowered(content_type);
    if l == "image/jpeg"@ {
        Some(ImageKind::Jpeg)
    } else if l == "image/png"@ {
        Some(ImageKind::Png)
    } else if l == "image/gif"@ {
        Some(ImageKind::Gif)
    } else {
        None
    }
}

/// Where the last dot-separated part of `name[..to]` begins.
pub open spec fn extension_start(name: Seq<char>, to: int) -> int
    decreases to,
{
    if 0 < to <= name.len() && name[to - 1] != '.' {
        extension_start(name, to - 1)
    } else {
        to
    }
}

/// What follows the last dot of a file name; the whole name if it has no dot.
pub open spec fn extension_of(name: Seq<char>) -> Seq<char> {
    name.subrange(extension_start(name, name.len() as int), name.len() as int)
}

/// The format that a file extension stands for, whatever the case of its
/// letters.
pub open spec fn kind_of_extension(extension: Seq<char>) -> Option<ImageKind> {
    let l = lowered(extension);
    if l == "jpg"@ || l == "jpeg"@ {
        Some(ImageKind::Jpeg)
    } else if l == "png"@ {
        Some(ImageKind::Png)
    } else if l == "gif"@ {
        Some(ImageKind::Gif)
    } else {
        None
    }
}

/// The format as which an upload is taken: the declared content type where
/// it is an accepted one; else what the extension of the file name stands
/// for, where a name is given and its extension is an accepted one; else
/// none, and the upload is refused.
pub open spec fn effective_kind(content_type: Option<Seq<char>>, file_name: Option<Seq<char>>)
    -> Option<ImageKind> {
    let declared = match content_type {
        Some(c) => kind_of_content_type(c),
        None => None,
    };
    if declared is Some {
        declared
    } else {
        match file_name {
            Some(n) => kind_of_extension(extension_of(n)),
            None => None,
        }
    }
}

/// Decide as which format an upload is taken, or refuse it.
pub fn effective_format(content_type: &Option<String>, file_name: &Option<String>) -> (r: Result<
    ImageKind,
    AppError,
>)
    ensures
        match effective_kind(text_of(*content_type), text_of(*file_name)) {
            Some(k) => r == Ok::<ImageKind, AppError>(k),
            None => r == Err::<ImageKind, AppError>(AppError::UnsupportedMediaType),
        },
{
    let declared = match content_type {
        Some(c) => ImageKind::from_content_type(c.as_str()),
        None => None,
    };
    let chosen = match declared {
        Some(k) => Some(k),
        None => match file_name {
            Some(n) => ImageKind::from_file_name(n.as_str()),
            None => None,
        },
    };
    match chosen {
        Some(k) => Ok(k),
        None => Err(AppError::UnsupportedMediaType),
    }
}

/// The length of the shorter side once the longer side, `long`, has become
/// [`MAX_IMAGE_DIMENSION`]: the exact quotient rounded down, but never zero.
pub open spec fn scaled_side(long: u32, short: u32) -> u32 {
    let q = (MAX_IMAGE_DIMENSION as int * short as int) / (long as int);
    if q == 0 {
        1
    } else {
        q as u32
    }
}

/// The size at which a picture of the given size is stored.
pub open spec fn target_size(width: u32, height: u32) -> (u32, u32) {
    if width <= MAX_IMAGE_DIMENSION && height <= MAX_IMAGE_DIMENSION {
        (width, height)
    } else if width > height {
        (MAX_IMAGE_DIMENSION, scaled_side(width, height))
    } else {
        (scaled_side(height, width), MAX_IMAGE_DIMENSION)
    }
}

/// The size at which a picture of the given size is stored.
pub fn target_dimensions(width: u32, height: u32) -> (r: (u32, u32))
    ensures
        r == target_size(width, height),
        width > MAX_IMAGE_DIMENSION || height > MAX_IMAGE_DIMENSION ==> 0 < r.0
            <= MAX_IMAGE_DIMENSION && 0 < r.1 <= MAX_IMAGE_DIMENSION,
{
    if width <= MAX_IMAGE_DIMENSION && height <= MAX_IMAGE_DIMENSION {
        (width, height)
    } else if width > height {
        (MAX_IMAGE_DIMENSION, shorter_side(width, height))
    } else {
        (shorter_side(height, width), MAX_IMAGE_DIMENSION)
    }
}

fn shorter_side(long: u32, short: u32) -> (r: u32)
    requires
        short <= long,
        long > MAX_IMAGE_DIMENSION,
    ensures
        r == scaled_side(long, short),
        0 < r <= MAX_IMAGE_DIMENSION,
{
    assert(1920 * short <= 1920 * 0xFFFF_FFFF) by (nonlinear_arith)
        requires
            short <= 0xFFFF_FFFF,
    ;
    let product: u64 = MAX_IMAGE_DIMENSION as u64 * short as u64;
    let q: u64 = product / long as u64;
    assert(q <= 1920) by (nonlinear_arith)
        requires
            q == (1920 * short as int) / (long as int),
            0 <= short <= long,
            long > 0,
    ;
    if q == 0 {
        1
    } else {
        q as u32
    }
}

/// A picture that is too large is scaled down so that its longer side is
/// exactly [`MAX_IMAGE_DIMENSION`] long, and its shorter side differs by less
/// than one pixel from the length that would keep the aspect ratio exactly.
pub proof fn downscale_keeps_shape(width: u32, height: u32)
    requires
        width > MAX_IMAGE_DIMENSION || height > MAX_IMAGE_DIMENSION,
        width > 0,
        height > 0,
    ensures
        width >= height ==> target_size(width, height).0 == MAX_IMAGE_DIMENSION,
        height >= width ==> target_size(width, height).1 == MAX_IMAGE_DIMENSION,
        0 < target_size(width, height).0 <= MAX_IMAGE_DIMENSION,
        0 < target_size(width, height).1 <= MAX_IMAGE_DIMENSION,
        width >= height ==> {
            let h = target_size(width, height).1 as int;
            (h - 1) * width < 1920 * height < (h + 1) * width
        },
        height >= width ==> {
            let w = target_size(width, height).0 as int;
            (w - 1) * height < 1920 * width < (w + 1) * height
        },
{
    if width >= height {
        scaled_side_is_close(width, height);
    }
    if height >= width {
        scaled_side_is_close(height, width);
    }
}

proof fn scaled_side_is_close(long: u32, short: u32)
    requires
        0 < short <= long,
    ensures
        ({
            let s = scaled_side(long, short) as int;
            &&& 0 < s <= 1920
            &&& (s - 1) * long < 1920 * short < (s + 1) * long
            &&& (short == long ==> s == 1920)
        }),
{
    let q = (1920 * short as int) / (long as int);
    assert(0 <= q <= 1920 && q * long <= 1920 * short < (q + 1) * long) by (nonlinear_arith)
        requires
            q == (1920 * short as int) / (long as int),
            0 < short <= long,
    ;
    let s = scaled_side(long, short) as int;
    if q == 0 {
        assert((s - 1) * long == 0 && (s + 1) * long == 2 * long) by (nonlinear_arith)
            requires
                s == 1,
        ;
    } else {
        assert((s - 1) * long < s * long) by (nonlinear_arith)
            requires
                long > 0,
        ;
    }
    if short == long {
        assert(q == 1920) by (nonlinear_arith)
            requires
                q * long <= 1920 * long < (q + 1) * long,
                long > 0,
        ;
    }
}

/// Whether `stored` is the picture `img` as it is stored: of the stored
/// size, and `img` itself where neither side of `img` exceeds
/// [`MAX_IMAGE_DIMENSION`].
pub open spec fn fits(stored: ::image::DynamicImage, img: ::image::DynamicImage) -> bool {
    let (width, height) = image_size(img);
    &&& image_size(stored) == target_size(width, height)
    &&& (width <= MAX_IMAGE_DIMENSION && height <= MAX_IMAGE_DIMENSION ==> stored == img)
}

/// Whether neither side of a picture exceeds [`MAX_IMAGE_DIMENSION`].
pub open spec fn within_limit(img: ::image::DynamicImage) -> bool {
    image_size(img).0 <= MAX_IMAGE_DIMENSION && image_size(img).1 <= MAX_IMAGE_DIMENSION
}

/// Scale a picture down where either side is longer than
/// [`MAX_IMAGE_DIMENSION`]; a picture within the limit is returned as it
/// is.
pub fn fit_image(img: ::image::DynamicImage) -> (r: ::image::DynamicImage)
    ensures
        fits(r, img),
        within_limit(r),
{
    let (width, height) = dimensions(&img);
    if width > MAX_IMAGE_DIMENSION || height > MAX_IMAGE_DIMENSION {
        let (new_width, new_height) = target_dimensions(width, height);
        resample(&img, new_width, new_height)
    } else {
        img
    }
}

/// The picture that is handed to the encoder of a format: as it is for PNG,
/// with three channels of eight bits for JPEG. Nothing is stored as GIF.
pub open spec fn laid_out(img: ::image::DynamicImage, kind: ImageKind) -> ::image::DynamicImage {
    match kind {
        ImageKind::Png => img,
        _ => as_rgb8(img),
    }
}

/// The bytes that the encoder of a format writes for the picture handed to
/// it, or `None` where it fails.
pub open spec fn written(img: ::image::DynamicImage, kind: ImageKind) -> Option<Seq<u8>> {
    match kind {
        ImageKind::Png => png_bytes(img),
        _ => jpeg_bytes(img, JPEG_QUALITY),
    }
}

/// The bytes of a picture in the given format, or `None` where the encoder
/// fails.
pub open spec fn encoded(img: ::image::DynamicImage, kind: ImageKind) -> Option<Seq<u8>> {
    written(laid_out(img, kind), kind)
}

/// Whether a result is what comes of storing the picture `stored` for an
/// upload of the format `kind`: its bytes in the format in which such an
/// upload is stored, under the label of that format; or, where the encoder
/// fails, the report of that.
pub open spec fn stores(
    r: Result<(Vec<u8>, String), AppError>,
    stored: ::image::DynamicImage,
    kind: ImageKind,
) -> bool {
    match encoded(stored, kind.stored_as()) {
        Some(bytes) => r matches Ok((out, mime)) && out@ == bytes && mime@
            == kind.stored_as().mime(),
        None => r matches Err(AppError::InvalidInput(m)) && m@ == "Failed to encode image"@,
    }
}

/// Whether a result reports that the payload is no picture of the format
/// it was taken as.
pub open spec fn undecodable(r: Result<(Vec<u8>, String), AppError>) -> bool {
    r matches Err(AppError::InvalidInput(m)) && m@ == "Failed to decode image"@
}

/// Whether a result is what comes of an upload that was taken as the format
/// `kind`: the report that it does not decode, or what comes of storing
/// some picture within the limit.
pub open spec fn normalizes(r: Result<(Vec<u8>, String), AppError>, kind: ImageKind) -> bool {
    undecodable(r) || exists|stored: ::image::DynamicImage|
        #[trigger] stores(r, stored, kind) && within_limit(stored)
}

/// Make of a decoded picture that came as `kind` the picture that is
/// written: scaled down where it is too large, and laid out for the format
/// in which it is stored. Whatever the format, the picture that is written
/// has the stored size.
pub fn prepare_image(img: ::image::DynamicImage, kind: ImageKind) -> (r: ::image::DynamicImage)
    ensures
        exists|stored: ::image::DynamicImage|
            #[trigger] fits(stored, img) && r == laid_out(stored, kind.stored_as()),
        image_size(r) == target_size(image_size(img).0, image_size(img).1),
        within_limit(img) ==> r == laid_out(img, kind.stored_as()),
{
    let fitted = fit_image(img);
    match kind.output_format() {
        ImageKind::Png => fitted,
        _ => to_rgb8(&fitted),
    }
}

/// Write a picture that was prepared for an upload of the format `kind`,
/// in the format in which such an upload is stored, and label the bytes.
pub fn write_image(img: &::image::DynamicImage, kind: ImageKind) -> (r: Result<
    (Vec<u8>, String),
    AppError,
>)
    ensures
        match written(*img, kind.stored_as()) {
            Some(bytes) => r matches Ok((out, mime)) && out@ == bytes && mime@
                == kind.stored_as().mime(),
            None => r matches Err(AppError::InvalidInput(m)) && m@ == "Failed to encode image"@,
        },
{
    let output = kind.output_format();
    let bytes = match output {
        ImageKind::Png => write_png(img),
        _ => write_jpeg(img, JPEG_QUALITY),
    };
    match bytes {
        Ok(out) => Ok((out, output.mime_type())),
        Err(_) => Err(AppError::InvalidInput("Failed to encode image".to_owned())),
    }
}

/// Scale a decoded picture that came as `kind` to its stored size and write
/// it in its stored format. What is written is some picture of the stored
/// size; where the picture was within the limit, it is that picture itself.
pub fn store_image(img: ::image::DynamicImage, kind: ImageKind) -> (r: Result<
    (Vec<u8>, String),
    AppError,
>)
    ensures
        exists|stored: ::image::DynamicImage|
            #[trigger] stores(r, stored, kind) && fits(stored, img) && within_limit(stored),
        within_limit(img) ==> stores(r, img, kind),
{
    let prepared = prepare_image(img, kind);
    let r = write_image(&prepared, kind);
    proof {
        let stored = choose|stored: ::image::DynamicImage|
            #[trigger] fits(stored, img) && prepared == laid_out(stored, kind.stored_as());
        stored_size_is_bounded(image_size(img).0, image_size(img).1);
        assert(stores(r, stored, kind));
    }
    r
}

/// Compress and resize an image if necessary. A payload that does not
/// decode as the format `kind` is invalid input; of one that does, some
/// picture within the limit is stored.
pub fn compress_image(buffer: Vec<u8>, kind: ImageKind) -> (r: Result<(Vec<u8>, String), AppError>)
    ensures
        normalizes(r, kind),
{
    match decode(&buffer, kind) {
        Ok(img) => store_image(img, kind),
        Err(_) => Err(AppError::InvalidInput("Failed to decode image".to_owned())),
    }
}

/// Whether a result is what comes of the file of an upload form: nothing
/// where no file came; a refusal where the file is of no accepted type;
/// else what comes of an upload that is taken as its format.
pub open spec fn delivers(r: Result<Option<(Vec<u8>, String)>, AppError>, file: Option<UploadedFile>)
    -> bool {
    match file {
        None => r == Ok::<Option<(Vec<u8>, String)>, AppError>(None),
        Some(f) => match effective_kind(text_of(f.content_type), text_of(f.file_name)) {
            None => r == Err::<Option<(Vec<u8>, String)>, AppError>(
                AppError::UnsupportedMediaType,
            ),
            Some(kind) => match r {
                Ok(Some(stored)) => normalizes(Ok(stored), kind),
                Ok(None) => false,
                Err(e) => normalizes(Err(e), kind),
            },
        },
    }
}

/// Validate and process an uploaded image file with compression and
/// resizing. Without a file there is nothing to store, which is no failure.
pub fn process_image_upload(file: Option<UploadedFile>) -> (r: Result<
    Option<(Vec<u8>, String)>,
    AppError,
>)
    ensures
        delivers(r, file),
{
    match file {
        None => Ok(None),
        Some(f) => {
            match effective_format(&f.content_type, &f.file_name) {
                Err(e) => Err(e),
                Ok(kind) => match compress_image(f.data, kind) {
                    Ok(stored) => Ok(Some(stored)),
                    Err(e) => Err(e),
                },
            }
        },
    }
}

/// A file is refused where neither its declared content type nor the
/// extension of its name is an accepted one, whatever its payload: a file
/// declared as a foreign type and named after that type, a file of a
/// foreign type without a name, a file with neither type nor name.
pub proof fn foreign_type_is_refused(file: UploadedFile)
    requires
        file.content_type matches Some(c) ==> kind_of_content_type(c@) is None,
        file.file_name matches Some(n) ==> kind_of_extension(extension_of(n@)) is None,
    ensures
        forall|r: Result<Option<(Vec<u8>, String)>, AppError>|
            delivers(r, Some(file)) ==> r == Err::<Option<(Vec<u8>, String)>, AppError>(
                AppError::UnsupportedMediaType,
            ),
{
}

/// The stored size is never wider or higher than [`MAX_IMAGE_DIMENSION`]; a
/// size within that limit is kept, and of a size beyond it one side becomes
/// exactly that long.
pub proof fn stored_size_is_bounded(width: u32, height: u32)
    ensures
        target_size(width, height).0 <= MAX_IMAGE_DIMENSION,
        target_size(width, height).1 <= MAX_IMAGE_DIMENSION,
        width <= MAX_IMAGE_DIMENSION && height <= MAX_IMAGE_DIMENSION ==> target_size(
            width,
            height,
        ) == (width, height),
        width > MAX_IMAGE_DIMENSION || height > MAX_IMAGE_DIMENSION ==> target_size(
            width,
            height,
        ).0 == MAX_IMAGE_DIMENSION || target_size(width, height).1 == MAX_IMAGE_DIMENSION,
{
    if width > MAX_IMAGE_DIMENSION || height > MAX_IMAGE_DIMENSION {
        if width > height {
            scaled_side_is_bounded(width, height);
        } else {
            scaled_side_is_bounded(height, width);
        }
    }
}

proof fn scaled_side_is_bounded(long: u32, short: u32)
    requires
        short <= long,
        long > 0,
    ensures
        0 < scaled_side(long, short) <= 1920,
{
    let q = (1920 * short as int) / (long as int);
    assert(0 <= q <= 1920) by (nonlinear_arith)
        requires
            q == (1920 * short as int) / (long as int),
            0 <= short <= long,
            long > 0,
    ;
}

} // verus!
