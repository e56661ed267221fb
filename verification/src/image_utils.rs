//! Thumbnails, profile pictures and conversions.
//!
//! Decoding, resampling and encoding are the image crate's. What is decided
//! here is what goes into them: the sizes, the filter, the quality and the
//! format, and what a caller is told when one of them fails.

use std::io::Cursor;

use image::codecs::jpeg::JpegEncoder;
use image::imageops::FilterType;
use image::{DynamicImage, GenericImageView};
use vstd::prelude::*;

verus! {

/// The quality of a thumbnail or a profile picture.
pub const JPEG_QUALITY: u8 = 50;

/// The most rows or columns that can be asked for: with any image that can be
/// decoded, resampling to them stays within what can be addressed.
pub const MAX_TARGET: u32 = 67_108_864;

/// An image's size.
#[derive(Debug, Clone, Copy, PartialEq, Eq, Structural)]
pub struct ImageDimensions {
    /// Columns.
    pub width: u32,
    /// Rows.
    pub height: u32,
}

/// A thumbnail.
#[derive(Debug, Clone, PartialEq, Eq)]
pub struct ImageThumbResult {
    /// The JPEG.
    pub buffer: Vec<u8>,
    /// The size of the image it is of.
    pub original: ImageDimensions,
}

/// A profile picture.
#[derive(Debug, Clone, PartialEq, Eq)]
pub struct ProfilePictureResult {
    /// The JPEG.
    pub img: Vec<u8>,
}

/// Output format for image processing.
#[derive(Debug, Clone, Copy, PartialEq, Eq, Structural)]
pub enum ImageFormat {
    /// JPEG.
    Jpeg,
    /// PNG.
    Png,
    /// WebP.
    WebP,
}

/// Options for image processing.
#[derive(Debug, Clone, Copy, PartialEq, Eq)]
pub struct ProcessImageOptions {
    /// Target width; the aspect ratio is kept if only this one is given.
    pub width: Option<u32>,
    /// Target height; the aspect ratio is kept if only this one is given.
    pub height: Option<u32>,
    /// Output format.
    pub format: ImageFormat,
    /// Quality for lossy formats, 1 to 100; 80 when it is absent.
    pub quality: Option<u8>,
}

/// Result of image processing.
#[derive(Debug, Clone, PartialEq, Eq)]
pub struct ProcessImageResult {
    /// The encoded image.
    pub buffer: Vec<u8>,
    /// Its columns.
    pub width: u32,
    /// Its rows.
    pub height: u32,
}

#[verifier::external_type_specification]
#[verifier::external_body]
pub struct ExDynamicImage(DynamicImage);

/// What a decoded image holds: its layout, its size and its samples, as one
/// sequence.
pub uninterp spec fn pixels(image: DynamicImage) -> Seq<u8>;

/// What encoded bytes decode to, or why they do not, as
/// [`image::load_from_memory`] has it.
pub uninterp spec fn decoded(data: Seq<u8>) -> Result<Seq<u8>, Seq<char>>;

/// The size of what an image holds, as [`GenericImageView::dimensions`] has
/// it.
pub uninterp spec fn dimensions_of(pixels: Seq<u8>) -> (u32, u32);

/// An image scaled to fit within so many columns and rows, as
/// [`DynamicImage::resize`] has it with [`FilterType::Triangle`].
pub uninterp spec fn fitted(pixels: Seq<u8>, width: u32, height: u32) -> Seq<u8>;

/// An image scaled to exactly so many columns and rows, as
/// [`DynamicImage::resize_exact`] has it with [`FilterType::Triangle`].
pub uninterp spec fn stretched(pixels: Seq<u8>, width: u32, height: u32) -> Seq<u8>;

/// An image scaled to cover so many columns and rows and cut to them, as
/// [`DynamicImage::resize_to_fill`] has it with [`FilterType::Triangle`].
pub uninterp spec fn filled(pixels: Seq<u8>, width: u32, height: u32) -> Seq<u8>;

/// An image as a JPEG of some quality, or why it cannot be one, as
/// [`JpegEncoder::encode_image`] has it.
pub uninterp spec fn jpeg_of(pixels: Seq<u8>, quality: u8) -> Result<Seq<u8>, Seq<char>>;

/// An image as a PNG or, where `webp` holds, as a WebP, or why it cannot be
/// one, as [`DynamicImage::write_to`] has it.
pub uninterp spec fn written(pixels: Seq<u8>, webp: bool) -> Result<Seq<u8>, Seq<char>>;

/// What a call returned, by its views.
pub open spec fn image_outcome(res: Result<DynamicImage, String>) -> Result<Seq<u8>, Seq<char>> {
    match res {
        Ok(image) => Ok(pixels(image)),
        Err(e) => Err(e@),
    }
}

/// What a call returned, by its views.
pub open spec fn byte_outcome(res: Result<Vec<u8>, String>) -> Result<Seq<u8>, Seq<char>> {
    match res {
        Ok(bytes) => Ok(bytes@),
        Err(e) => Err(e@),
    }
}

/// [`image::load_from_memory`], its error rendered.
#[verifier::external_body]
fn decode(data: &[u8]) -> (res: Result<DynamicImage, String>)
    ensures
        image_outcome(res) == decoded(data@),
{
    image::load_from_memory(data).map_err(|e| e.to_string())
}

/// [`GenericImageView::dimensions`].
#[verifier::external_body]
fn dimensions(image: &DynamicImage) -> (size: (u32, u32))
    ensures
        size == dimensions_of(pixels(*image)),
{
    image.dimensions()
}

/// [`DynamicImage::resize`] with [`FilterType::Triangle`]. One of the two
/// bounds has to keep the result addressable.
#[verifier::external_body]
fn fit(image: &DynamicImage, width: u32, height: u32) -> (out: DynamicImage)
    requires
        width <= MAX_TARGET || height <= MAX_TARGET,
    ensures
        pixels(out) == fitted(pixels(*image), width, height),
{
    image.resize(width, height, FilterType::Triangle)
}

/// [`DynamicImage::resize_exact`] with [`FilterType::Triangle`]: the result
/// has the size that was asked for.
#[verifier::external_body]
fn stretch(image: &DynamicImage, width: u32, height: u32) -> (out: DynamicImage)
    requires
        height <= MAX_TARGET,
    ensures
        pixels(out) == stretched(pixels(*image), width, height),
        dimensions_of(pixels(out)) == (width, height),
{
    image.resize_exact(width, height, FilterType::Triangle)
}

/// [`DynamicImage::resize_to_fill`] with [`FilterType::Triangle`].
#[verifier::external_body]
fn fill(image: &DynamicImage, width: u32, height: u32) -> (out: DynamicImage)
    requires
        0 < width <= MAX_TARGET,
        0 < height <= MAX_TARGET,
    ensures
        pixels(out) == filled(pixels(*image), width, height),
{
    image.resize_to_fill(width, height, FilterType::Triangle)
}

/// [`JpegEncoder::encode_image`] into memory, its error rendered.
#[verifier::external_body]
fn to_jpeg(image: &DynamicImage, quality: u8) -> (res: Result<Vec<u8>, String>)
    ensures
        byte_outcome(res) == jpeg_of(pixels(*image), quality),
{
    let mut buffer = Cursor::new(Vec::new());
    let mut encoder = JpegEncoder::new_with_quality(&mut buffer, quality);
    encoder.encode_image(image).map_err(|e| e.to_string())?;
    Ok(buffer.into_inner())
}

/// [`DynamicImage::write_to`] into memory, its error rendered.
#[verifier::external_body]
fn write_as(image: &DynamicImage, webp: bool) -> (res: Result<Vec<u8>, String>)
    ensures
        byte_outcome(res) == written(pixels(*image), webp),
{
    let format = if webp { image::ImageFormat::WebP } else { image::ImageFormat::Png };
    let mut buffer = Vec::new();
    image.write_to(&mut Cursor::new(&mut buffer), format).map_err(|e| e.to_string())?;
    Ok(buffer)
}

/// An outcome whose error is told under a heading.
pub open spec fn told(heading: Seq<char>, res: Result<Seq<u8>, Seq<char>>) -> Result<
    Seq<u8>,
    Seq<char>,
> {
    match res {
        Ok(bytes) => Ok(bytes),
        Err(e) => Err(heading + e),
    }
}

/// What some bytes load as.
pub open spec fn loaded(data: Seq<u8>) -> Result<Seq<u8>, Seq<char>> {
    told("Failed to load image: "@, decoded(data))
}

/// An image encoded as a JPEG.
pub open spec fn as_jpeg(pixels: Seq<u8>, quality: u8) -> Result<Seq<u8>, Seq<char>> {
    told("Failed to encode JPEG: "@, jpeg_of(pixels, quality))
}

/// An image encoded in a format; only a JPEG has a quality.
pub open spec fn encoded_as(pixels: Seq<u8>, format: ImageFormat, quality: u8) -> Result<
    Seq<u8>,
    Seq<char>,
> {
    match format {
        ImageFormat::Jpeg => as_jpeg(pixels, quality),
        ImageFormat::Png => told("Failed to encode image: "@, written(pixels, false)),
        ImageFormat::WebP => told("Failed to encode image: "@, written(pixels, true)),
    }
}

fn headed(heading: &str, e: String) -> (s: String)
    ensures
        s@ == heading@ + e@,
{
    let mut s = heading.to_owned();
    s.push_str(e.as_str());
    s
}

fn load_image(image_data: &[u8]) -> (res: Result<DynamicImage, String>)
    ensures
        image_outcome(res) == loaded(image_data@),
{
    match decode(image_data) {
        Ok(image) => Ok(image),
        Err(e) => Err(headed("Failed to load image: ", e)),
    }
}

fn encode_jpeg_quality(image: &DynamicImage, quality: u8) -> (res: Result<Vec<u8>, String>)
    ensures
        byte_outcome(res) == as_jpeg(pixels(*image), quality),
{
    match to_jpeg(image, quality) {
        Ok(bytes) => Ok(bytes),
        Err(e) => Err(headed("Failed to encode JPEG: ", e)),
    }
}

fn encode_jpeg(image: &DynamicImage) -> (res: Result<Vec<u8>, String>)
    ensures
        byte_outcome(res) == as_jpeg(pixels(*image), JPEG_QUALITY),
{
    encode_jpeg_quality(image, JPEG_QUALITY)
}

fn encode_format(image: &DynamicImage, format: ImageFormat, quality: u8) -> (res: Result<
    Vec<u8>,
    String,
>)
    ensures
        byte_outcome(res) == encoded_as(pixels(*image), format, quality),
{
    let webp = match format {
        ImageFormat::Jpeg => return encode_jpeg_quality(image, quality),
        ImageFormat::Png => false,
        ImageFormat::WebP => true,
    };
    match write_as(image, webp) {
        Ok(bytes) => Ok(bytes),
        Err(e) => Err(headed("Failed to encode image: ", e)),
    }
}

/// The thumbnail of what some bytes load as.
pub open spec fn thumb(loaded: Result<Seq<u8>, Seq<char>>, width: u32) -> Result<
    (Seq<u8>, (u32, u32)),
    Seq<char>,
> {
    if width == 0 {
        Err("width must be greater than zero"@)
    } else {
        match loaded {
            Err(e) => Err(e),
            Ok(image) => match as_jpeg(fitted(image, width, width), JPEG_QUALITY) {
                Err(e) => Err(e),
                Ok(jpeg) => Ok((jpeg, dimensions_of(image))),
            },
        }
    }
}

/// Extracts a JPEG thumbnail from any supported image format.
pub fn extract_thumb(image_data: &[u8], width: u32) -> (res: Result<ImageThumbResult, String>)
    requires
        width <= MAX_TARGET,
    ensures
        match (thumb(loaded(image_data@), width), res) {
            (Ok(t), Ok(r)) => r.buffer@ == t.0 && (r.original.width, r.original.height) == t.1,
            (Err(e), Err(f)) => e == f@,
            _ => false,
        },
        width == 0 ==> (res matches Err(f) && f@ == "width must be greater than zero"@),
        width > 0 ==> match decoded(image_data@) {
            Err(e) => res matches Err(f) && f@ == "Failed to load image: "@ + e,
            Ok(image) => match jpeg_of(fitted(image, width, width), 50) {
                Err(e) => res matches Err(f) && f@ == "Failed to encode JPEG: "@ + e,
                Ok(jpeg) => res matches Ok(r) && r.buffer@ == jpeg && r.original.width
                    == dimensions_of(image).0 && r.original.height == dimensions_of(image).1,
            },
        },
{
    if width == 0 {
        return Err("width must be greater than zero".to_owned());
    }
    let img = load_image(image_data)?;
    let (orig_width, orig_height) = dimensions(&img);
    let resized = fit(&img, width, width);
    let jpeg = encode_jpeg(&resized)?;
    Ok(
        ImageThumbResult {
            buffer: jpeg,
            original: ImageDimensions { width: orig_width, height: orig_height },
        },
    )
}

/// The profile picture of what some bytes load as.
pub open spec fn profile_pic(loaded: Result<Seq<u8>, Seq<char>>, target_width: u32) -> Result<
    Seq<u8>,
    Seq<char>,
> {
    if target_width == 0 {
        Err("target width must be greater than zero"@)
    } else {
        match loaded {
            Err(e) => Err(e),
            Ok(image) => as_jpeg(filled(image, target_width, target_width), JPEG_QUALITY),
        }
    }
}

/// Generates a square profile picture as a JPEG.
pub fn generate_profile_pic(image_data: &[u8], target_width: u32) -> (res: Result<
    ProfilePictureResult,
    String,
>)
    requires
        target_width <= MAX_TARGET,
    ensures
        match (profile_pic(loaded(image_data@), target_width), res) {
            (Ok(jpeg), Ok(r)) => r.img@ == jpeg,
            (Err(e), Err(f)) => e == f@,
            _ => false,
        },
        target_width == 0 ==> (res matches Err(f) && f@
            == "target width must be greater than zero"@),
        target_width > 0 ==> match decoded(image_data@) {
            Err(e) => res matches Err(f) && f@ == "Failed to load image: "@ + e,
            Ok(image) => match jpeg_of(filled(image, target_width, target_width), 50) {
                Err(e) => res matches Err(f) && f@ == "Failed to encode JPEG: "@ + e,
                Ok(jpeg) => res matches Ok(r) && r.img@ == jpeg,
            },
        },
{
    if target_width == 0 {
        return Err("target width must be greater than zero".to_owned());
    }
    let img = load_image(image_data)?;
    let resized = fill(&img, target_width, target_width);
    let jpeg = encode_jpeg(&resized)?;
    Ok(ProfilePictureResult { img: jpeg })
}

/// The size of an image.
pub fn get_dimensions(image_data: &[u8]) -> (res: Result<ImageDimensions, String>)
    ensures
        match (loaded(image_data@), res) {
            (Ok(image), Ok(size)) => (size.width, size.height) == dimensions_of(image),
            (Err(e), Err(f)) => e == f@,
            _ => false,
        },
        match decoded(image_data@) {
            Ok(image) => res matches Ok(size) && size.width == dimensions_of(image).0
                && size.height == dimensions_of(image).1,
            Err(e) => res matches Err(f) && f@ == "Failed to load image: "@ + e,
        },
{
    let img = load_image(image_data)?;
    let (width, height) = dimensions(&img);
    Ok(ImageDimensions { width, height })
}

/// Converts any image to WebP.
pub fn convert_to_webp_bytes(image_data: &[u8]) -> (res: Result<Vec<u8>, String>)
    ensures
        byte_outcome(res) == match loaded(image_data@) {
            Ok(image) => encoded_as(image, ImageFormat::WebP, 0),
            Err(e) => Err(e),
        },
        match decoded(image_data@) {
            Ok(image) => match written(image, true) {
                Ok(webp) => res matches Ok(r) && r@ == webp,
                Err(e) => res matches Err(f) && f@ == "Failed to encode image: "@ + e,
            },
            Err(e) => res matches Err(f) && f@ == "Failed to load image: "@ + e,
        },
{
    let img = load_image(image_data)?;
    encode_format(&img, ImageFormat::WebP, 0)
}

impl ProcessImageOptions {
    /// What an image is scaled to: to exactly the size given, to the one bound
    /// given, or not at all.
    pub open spec fn scaled(self, image: Seq<u8>) -> Seq<u8> {
        match (self.width, self.height) {
            (Some(w), Some(h)) => stretched(image, w, h),
            (Some(w), None) => fitted(image, w, u32::MAX),
            (None, Some(h)) => fitted(image, u32::MAX, h),
            (None, None) => image,
        }
    }

    /// The quality, within its range.
    pub open spec fn effective_quality(self) -> u8 {
        match self.quality {
            None => 80,
            Some(q) => if q < 1 {
                1
            } else if q > 100 {
                100
            } else {
                q
            },
        }
    }

    /// Whether the size asked for can be addressed.
    pub open spec fn addressable(self) -> bool {
        match (self.width, self.height) {
            (_, Some(h)) => h <= MAX_TARGET,
            (Some(w), None) => w <= MAX_TARGET,
            (None, None) => true,
        }
    }

    /// What comes of what some bytes load as: the encoded image and its size.
    pub open spec fn processed(self, loaded: Result<Seq<u8>, Seq<char>>) -> Result<
        (Seq<u8>, (u32, u32)),
        Seq<char>,
    > {
        match loaded {
            Err(e) => Err(e),
            Ok(image) => match encoded_as(
                self.scaled(image),
                self.format,
                self.effective_quality(),
            ) {
                Err(e) => Err(e),
                Ok(buffer) => Ok((buffer, dimensions_of(self.scaled(image)))),
            },
        }
    }
}

/// Processes an image with resize and format conversion options.
pub fn process(image_data: &[u8], options: &ProcessImageOptions) -> (res: Result<
    ProcessImageResult,
    String,
>)
    requires
        options.addressable(),
    ensures
        match (options.processed(loaded(image_data@)), res) {
            (Ok(p), Ok(r)) => r.buffer@ == p.0 && (r.width, r.height) == p.1,
            (Err(e), Err(f)) => e == f@,
            _ => false,
        },
        match (options.width, options.height, res) {
            (Some(w), Some(h), Ok(r)) => r.width == w && r.height == h,
            _ => true,
        },
        match decoded(image_data@) {
            Err(e) => res matches Err(f) && f@ == "Failed to load image: "@ + e,
            Ok(image) => {
                let sized = match (options.width, options.height) {
                    (Some(w), Some(h)) => stretched(image, w, h),
                    (Some(w), None) => fitted(image, w, 0xffff_ffff),
                    (None, Some(h)) => fitted(image, 0xffff_ffff, h),
                    (None, None) => image,
                };
                res matches Ok(r) ==> {
                    &&& r.width == dimensions_of(sized).0
                    &&& r.height == dimensions_of(sized).1
                    &&& options.format is Png ==> written(sized, false) == Ok::<
                        Seq<u8>,
                        Seq<char>,
                    >(r.buffer@)
                    &&& options.format is WebP ==> written(sized, true) == Ok::<
                        Seq<u8>,
                        Seq<char>,
                    >(r.buffer@)
                    &&& options.format is Jpeg && options.quality is None ==> jpeg_of(sized, 80)
                        == Ok::<Seq<u8>, Seq<char>>(r.buffer@)
                    &&& options.format is Jpeg && (options.quality matches Some(q) && 1 <= q
                        <= 100) ==> jpeg_of(sized, options.quality->0) == Ok::<
                        Seq<u8>,
                        Seq<char>,
                    >(r.buffer@)
                }
            },
        },
{
    let img = load_image(image_data)?;
    let processed = match (options.width, options.height) {
        (Some(w), Some(h)) => stretch(&img, w, h),
        (Some(w), None) => fit(&img, w, u32::MAX),
        (None, Some(h)) => fit(&img, u32::MAX, h),
        (None, None) => img,
    };
    let (width, height) = dimensions(&processed);
    let quality: u8 = match options.quality {
        None => 80,
        Some(q) => if q < 1 {
            1
        } else if q > 100 {
            100
        } else {
            q
        },
    };
    let buffer = encode_format(&processed, options.format, quality)?;
    Ok(ProcessImageResult { buffer, width, height })
}

/// A profile picture is the image scaled to cover its square and cut to it, as
/// a JPEG of quality 50; what goes wrong on the way is told as what it was.
pub proof fn a_profile_picture_covers_its_square(data: Seq<u8>, width: u32, image: Seq<u8>)
    requires
        width > 0,
        decoded(data) == Ok::<Seq<u8>, Seq<char>>(image),
    ensures
        profile_pic(loaded(data), width) is Ok <==> jpeg_of(filled(image, width, width), 50) is Ok,
        profile_pic(loaded(data), width) matches Ok(jpeg) ==> jpeg_of(
            filled(image, width, width),
            50,
        ) == Ok::<Seq<u8>, Seq<char>>(jpeg),
        jpeg_of(filled(image, width, width), 50) matches Err(e) ==> profile_pic(loaded(data), width)
            == Err::<Seq<u8>, Seq<char>>("Failed to encode JPEG: "@ + e),
{
}

/// A thumbnail is the image scaled to fit within its square, as a JPEG of
/// quality 50, and says how large the image itself was.
pub proof fn a_thumbnail_fits_its_square(data: Seq<u8>, width: u32, image: Seq<u8>)
    requires
        width > 0,
        decoded(data) == Ok::<Seq<u8>, Seq<char>>(image),
    ensures
        thumb(loaded(data), width) is Ok <==> jpeg_of(fitted(image, width, width), 50) is Ok,
        thumb(loaded(data), width) matches Ok((jpeg, size)) ==> jpeg_of(
            fitted(image, width, width),
            50,
        ) == Ok::<Seq<u8>, Seq<char>>(jpeg) && size == dimensions_of(image),
        jpeg_of(fitted(image, width, width), 50) matches Err(e) ==> thumb(loaded(data), width)
            == Err::<(Seq<u8>, (u32, u32)), Seq<char>>("Failed to encode JPEG: "@ + e),
{
}

/// Bytes that do not load make no picture, and the reason is told; a width of
/// zero is refused before anything is loaded.
pub proof fn what_does_not_load_makes_no_picture(
    data: Seq<u8>,
    width: u32,
    options: ProcessImageOptions,
    why: Seq<char>,
)
    requires
        decoded(data) == Err::<Seq<u8>, Seq<char>>(why),
    ensures
        profile_pic(loaded(data), width) is Err,
        thumb(loaded(data), width) is Err,
        width > 0 ==> profile_pic(loaded(data), width) == Err::<Seq<u8>, Seq<char>>(
            "Failed to load image: "@ + why,
        ),
        width > 0 ==> thumb(loaded(data), width) == Err::<(Seq<u8>, (u32, u32)), Seq<char>>(
            "Failed to load image: "@ + why,
        ),
        options.processed(loaded(data)) == Err::<(Seq<u8>, (u32, u32)), Seq<char>>(
            "Failed to load image: "@ + why,
        ),
        profile_pic(loaded(data), 0) == Err::<Seq<u8>, Seq<char>>(
            "target width must be greater than zero"@,
        ),
        thumb(loaded(data), 0) == Err::<(Seq<u8>, (u32, u32)), Seq<char>>(
            "width must be greater than zero"@,
        ),
{
}

/// Both sides given, an image is stretched to them; one given, it is fitted to
/// that one alone; none given, it stays.
pub proof fn an_image_is_sized_as_asked(options: ProcessImageOptions, image: Seq<u8>)
    ensures
        forall|w: u32, h: u32|
            #![trigger stretched(image, w, h)]
            options.width == Some(w) && options.height == Some(h) ==> options.scaled(image)
                == stretched(image, w, h),
        forall|w: u32|
            #![trigger fitted(image, w, 0xffff_ffff)]
            options.width == Some(w) && options.height is None ==> options.scaled(image) == fitted(
                image,
                w,
                0xffff_ffff,
            ),
        forall|h: u32|
            #![trigger fitted(image, 0xffff_ffff, h)]
            options.width is None && options.height == Some(h) ==> options.scaled(image) == fitted(
                image,
                0xffff_ffff,
                h,
            ),
        options.width is None && options.height is None ==> options.scaled(image) == image,
{
}

/// A quality from 1 to 100 is taken as it is; below and above, the nearest is;
/// without one it is 80.
pub proof fn a_quality_keeps_its_range(options: ProcessImageOptions, other: ProcessImageOptions)
    ensures
        1 <= options.effective_quality() <= 100,
        options.quality is None ==> options.effective_quality() == 80,
        options.quality matches Some(q) ==> (1 <= q <= 100 ==> options.effective_quality() == q)
            && (q == 0 ==> options.effective_quality() == 1) && (q > 100
            ==> options.effective_quality() == 100),
        options.quality is Some && other.quality is Some && options.quality->0 <= other.quality->0
            ==> options.effective_quality() <= other.effective_quality(),
{
}

/// What is processed is encoded in the format asked for, at the quality asked
/// for where the format has one, and its size is that of what was encoded.
pub proof fn an_image_is_written_as_asked(
    data: Seq<u8>,
    image: Seq<u8>,
    options: ProcessImageOptions,
    buffer: Seq<u8>,
    size: (u32, u32),
)
    requires
        decoded(data) == Ok::<Seq<u8>, Seq<char>>(image),
        options.processed(loaded(data)) == Ok::<(Seq<u8>, (u32, u32)), Seq<char>>((buffer, size)),
    ensures
        size == dimensions_of(options.scaled(image)),
        options.format is Png ==> written(options.scaled(image), false) == Ok::<
            Seq<u8>,
            Seq<char>,
        >(buffer),
        options.format is WebP ==> written(options.scaled(image), true) == Ok::<
            Seq<u8>,
            Seq<char>,
        >(buffer),
        options.format is Jpeg ==> jpeg_of(options.scaled(image), options.effective_quality())
            == Ok::<Seq<u8>, Seq<char>>(buffer),
{
}

} // verus!
