//! Thumbnails, profile pictures and conversions.

use std::io::Cursor;

use image::{DynamicImage, GenericImageView, ImageFormat as Format, RgbImage};
use voip_bridge::image_utils::{
    convert_to_webp_bytes, extract_thumb, generate_profile_pic, get_dimensions, process,
    ImageDimensions, ImageFormat, ProcessImageOptions,
};

fn png(width: u32, height: u32) -> Vec<u8> {
    let mut img = RgbImage::new(width, height);
    for (x, y, p) in img.enumerate_pixels_mut() {
        p.0 = [(x * 7) as u8, (y * 5) as u8, 90];
    }
    let mut out = Cursor::new(Vec::new());
    DynamicImage::ImageRgb8(img)
        .write_to(&mut out, Format::Png)
        .unwrap();
    out.into_inner()
}

fn options(width: Option<u32>, height: Option<u32>, format: ImageFormat) -> ProcessImageOptions {
    ProcessImageOptions {
        width,
        height,
        format,
        quality: None,
    }
}

#[test]
fn a_thumbnail_fits_its_width_and_names_the_original() {
    let thumb = extract_thumb(&png(40, 20), 10).unwrap();
    assert_eq!(
        thumb.original,
        ImageDimensions {
            width: 40,
            height: 20
        }
    );
    assert_eq!(image::guess_format(&thumb.buffer).unwrap(), Format::Jpeg);
    assert_eq!(
        get_dimensions(&thumb.buffer).unwrap(),
        ImageDimensions {
            width: 10,
            height: 5
        }
    );
}

#[test]
fn a_profile_picture_is_square() {
    let pic = generate_profile_pic(&png(40, 20), 16).unwrap();
    assert_eq!(image::guess_format(&pic.img).unwrap(), Format::Jpeg);
    assert_eq!(
        get_dimensions(&pic.img).unwrap(),
        ImageDimensions {
            width: 16,
            height: 16
        }
    );
}

#[test]
fn no_width_is_refused_before_the_image_is_read() {
    assert_eq!(
        extract_thumb(b"junk", 0).err().unwrap(),
        "width must be greater than zero"
    );
    assert_eq!(
        generate_profile_pic(b"junk", 0).err().unwrap(),
        "target width must be greater than zero"
    );
}

#[test]
fn what_is_no_image_is_said_to_fail_loading() {
    for e in [
        extract_thumb(b"junk", 8).err().unwrap(),
        generate_profile_pic(b"junk", 8).err().unwrap(),
        get_dimensions(b"junk").err().unwrap(),
        convert_to_webp_bytes(b"junk").err().unwrap(),
        process(b"junk", &options(None, None, ImageFormat::Png))
            .err()
            .unwrap(),
    ] {
        assert!(e.starts_with("Failed to load image: "), "{e}");
    }
}

#[test]
fn any_image_becomes_a_webp() {
    let webp = convert_to_webp_bytes(&png(6, 4)).unwrap();
    assert_eq!(image::guess_format(&webp).unwrap(), Format::WebP);
    let back = image::load_from_memory(&webp).unwrap();
    assert_eq!(back.dimensions(), (6, 4));
    // The format is lossless.
    assert_eq!(
        back.to_rgb8(),
        image::load_from_memory(&png(6, 4)).unwrap().to_rgb8()
    );
}

#[test]
fn both_sizes_stretch_and_one_keeps_the_ratio() {
    let source = png(40, 20);
    for (w, h, expected) in [
        (Some(8), Some(9), (8, 9)),
        (Some(8), None, (8, 4)),
        (None, Some(5), (10, 5)),
        (None, None, (40, 20)),
    ] {
        let out = process(&source, &options(w, h, ImageFormat::Png)).unwrap();
        assert_eq!((out.width, out.height), expected);
        assert_eq!(image::guess_format(&out.buffer).unwrap(), Format::Png);
        assert_eq!(
            image::load_from_memory(&out.buffer).unwrap().dimensions(),
            expected
        );
    }
}

#[test]
fn the_format_and_the_quality_are_as_asked() {
    let source = png(40, 20);
    let encode = |format: ImageFormat, quality: Option<u8>| {
        process(
            &source,
            &ProcessImageOptions {
                width: None,
                height: None,
                format,
                quality,
            },
        )
        .unwrap()
        .buffer
    };
    let default = encode(ImageFormat::Jpeg, None);
    assert_eq!(image::guess_format(&default).unwrap(), Format::Jpeg);
    assert_eq!(default, encode(ImageFormat::Jpeg, Some(80)));
    assert_ne!(default, encode(ImageFormat::Jpeg, Some(10)));
    assert_eq!(
        encode(ImageFormat::Jpeg, Some(0)),
        encode(ImageFormat::Jpeg, Some(1))
    );
    assert_eq!(
        encode(ImageFormat::Jpeg, Some(255)),
        encode(ImageFormat::Jpeg, Some(100))
    );
    let webp = encode(ImageFormat::WebP, Some(3));
    assert_eq!(image::guess_format(&webp).unwrap(), Format::WebP);
    assert_eq!(webp, convert_to_webp_bytes(&source).unwrap());
}

#[test]
fn an_image_without_a_row_cannot_be_encoded() {
    let source = png(4, 4);
    let e = process(&source, &options(Some(4), Some(0), ImageFormat::Jpeg))
        .err()
        .unwrap();
    assert!(e.starts_with("Failed to encode JPEG: "), "{e}");
    let e = process(&source, &options(Some(4), Some(0), ImageFormat::WebP))
        .err()
        .unwrap();
    assert!(e.starts_with("Failed to encode image: "), "{e}");
}
