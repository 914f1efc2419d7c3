//! Images as the `image` crate holds them.
//!
//! A canonical image becomes a `DynamicImage` on its way to cropping and to
//! the file. What is known of such a value is known through its width, its
//! height, and the bytes of its buffer where it is an 8-bit image with red,
//! green and blue, with or without alpha.

use vstd::prelude::*;
use image::DynamicImage;
use crate::error::{EbCaptureError, ErrorModel};
use crate::pixel::{
    ImageModel, NormalizedImage, OpaqueImage, all_opaque, exact_size, image_of, image_too_large,
    normalize_frame, resolve_layout, swaps_blue_and_red, unsupported,
};
use crate::window_manager::{
    MIN_REGION_SIZE, WindowRect, clamp_region, clamped_region, lemma_clamped_region_is_usable,
};

verus! {

/// The image type of the `image` crate; its inside is not looked into.
#[verifier::external_type_specification]
#[verifier::external_body]
pub struct ExDynamicImage(image::DynamicImage);

/// What `DynamicImage::width` returns: pixels per row.
pub uninterp spec fn image_width(img: DynamicImage) -> nat;

/// What `DynamicImage::height` returns: number of rows.
pub uninterp spec fn image_height(img: DynamicImage) -> nat;

/// The bytes of the buffer that `DynamicImage::as_rgba8` gives access to;
/// `None` for an image of another kind.
pub uninterp spec fn rgba_data(img: DynamicImage) -> Option<Seq<u8>>;

/// The bytes of the buffer that `DynamicImage::as_rgb8` gives access to;
/// `None` for an image of another kind.
pub uninterp spec fn rgb_data(img: DynamicImage) -> Option<Seq<u8>>;

/// `DynamicImage::width` reads the width of whatever image is inside.
pub assume_specification[ image::DynamicImage::width ](img: &DynamicImage) -> (w: u32)
    ensures
        w == image_width(*img),
;

/// `DynamicImage::height` reads the height of whatever image is inside.
pub assume_specification[ image::DynamicImage::height ](img: &DynamicImage) -> (h: u32)
    ensures
        h == image_height(*img),
;

/// Where a cut starts along one axis: at the offset asked for, or at the end
/// of the image if the offset lies beyond it.
pub open spec fn crop_origin(offset: int, full: int) -> int {
    if offset < full {
        offset
    } else {
        full
    }
}

/// How far a cut reaches along one axis: as far as asked for, or to the end
/// of the image if that comes first.
pub open spec fn crop_extent(offset: int, extent: int, full: int) -> int {
    if extent < full - crop_origin(offset, full) {
        extent
    } else {
        full - crop_origin(offset, full)
    }
}

/// The bytes of the `width` by `height` pixels of an image with `src_width`
/// pixels per row and `channels` bytes per pixel, whose top left one is at
/// column `x`, row `y`.
pub open spec fn cropped(
    src: Seq<u8>,
    channels: int,
    src_width: int,
    x: int,
    y: int,
    width: int,
    height: int,
) -> Seq<u8> {
    Seq::new(
        (channels * (width * height)) as nat,
        |k: int|
            src[((y + (k / channels) / width) * src_width + x + (k / channels) % width) * channels
                + k % channels],
    )
}

/// `DynamicImage::crop_imm` copies a rectangle out of an image. The crate
/// first moves the corner and shortens the sides so that the rectangle lies
/// within the image, then copies pixel by pixel into a new image of the
/// same kind. The contract states the new size, and for an 8-bit image with
/// red, green and blue, with or without alpha, the new bytes.
pub assume_specification[ image::DynamicImage::crop_imm ](
    img: &DynamicImage,
    x: u32,
    y: u32,
    width: u32,
    height: u32,
) -> (r: DynamicImage)
    ensures
        image_width(r) == crop_extent(x as int, width as int, image_width(*img) as int),
        image_height(r) == crop_extent(y as int, height as int, image_height(*img) as int),
        rgba_data(*img) matches Some(src) ==> rgba_data(r) == Some(
            cropped(
                src,
                4,
                image_width(*img) as int,
                crop_origin(x as int, image_width(*img) as int),
                crop_origin(y as int, image_height(*img) as int),
                image_width(r) as int,
                image_height(r) as int,
            ),
        ),
        rgb_data(*img) matches Some(src) ==> rgb_data(r) == Some(
            cropped(
                src,
                3,
                image_width(*img) as int,
                crop_origin(x as int, image_width(*img) as int),
                crop_origin(y as int, image_height(*img) as int),
                image_width(r) as int,
                image_height(r) as int,
            ),
        ),
;

/// `RgbaImage::from_raw` takes a buffer as an image of the given size if it
/// holds at least four bytes for each pixel, and refuses it otherwise; the
/// image is then handed on as `DynamicImage::ImageRgba8`.
#[verifier::external_body]
fn rgba_image_from_raw(width: u32, height: u32, data: Vec<u8>) -> (r: Option<DynamicImage>)
    ensures
        r is Some <==> 4 * (width * height) <= data@.len(),
        r matches Some(img) ==> image_width(img) == width && image_height(img) == height
            && rgba_data(img) == Some(data@),
{
    image::RgbaImage::from_raw(width, height, data).map(DynamicImage::ImageRgba8)
}

/// `RgbImage::from_raw` takes a buffer as an image of the given size if it
/// holds at least three bytes for each pixel, and refuses it otherwise; the
/// image is then handed on as `DynamicImage::ImageRgb8`.
#[verifier::external_body]
fn rgb_image_from_raw(width: u32, height: u32, data: Vec<u8>) -> (r: Option<DynamicImage>)
    ensures
        r is Some <==> 3 * (width * height) <= data@.len(),
        r matches Some(img) ==> image_width(img) == width && image_height(img) == height
            && rgb_data(img) == Some(data@),
{
    image::RgbImage::from_raw(width, height, data).map(DynamicImage::ImageRgb8)
}

/// Largest width or height that an image of the `image` crate can have.
pub open spec fn max_side() -> int {
    u32::MAX as int
}

/// Hands a canonical image to the `image` crate. `None` where a side is
/// longer than that crate can say.
pub fn into_rgba_image(image: NormalizedImage) -> (r: Option<DynamicImage>)
    ensures
        r is Some <==> image@.width <= max_side() && image@.height <= max_side(),
        r matches Some(img) ==> image_width(img) == image@.width && image_height(img)
            == image@.height && rgba_data(img) == Some(image@.data),
{
    let width: usize = image.width();
    let height: usize = image.height();
    if width > u32::MAX as usize || height > u32::MAX as usize {
        return None;
    }
    let data: Vec<u8> = image.into_raw();
    assert(4 * (width * height) == 4 * width * height) by (nonlinear_arith);
    rgba_image_from_raw(width as u32, height as u32, data)
}

/// Hands an image without alpha to the `image` crate. `None` where a side
/// is longer than that crate can say.
pub fn into_rgb_image(image: OpaqueImage) -> (r: Option<DynamicImage>)
    ensures
        r is Some <==> image@.width <= max_side() && image@.height <= max_side(),
        r matches Some(img) ==> image_width(img) == image@.width && image_height(img)
            == image@.height && rgb_data(img) == Some(image@.data),
{
    let width: usize = image.width();
    let height: usize = image.height();
    if width > u32::MAX as usize || height > u32::MAX as usize {
        return None;
    }
    let data: Vec<u8> = image.into_raw();
    assert(3 * (width * height) == 3 * width * height) by (nonlinear_arith);
    rgb_image_from_raw(width as u32, height as u32, data)
}

/// Reason given when the `image` crate does not take a buffer.
pub open spec fn image_refused() -> Seq<char> {
    "image buffer could not be created"@
}

/// Whether an image of the `image` crate shows what the model says: its
/// size, and its bytes as an 8-bit red-green-blue-alpha image.
pub open spec fn depicts(img: DynamicImage, model: ImageModel) -> bool {
    image_width(img) == model.width && image_height(img) == model.height && rgba_data(img)
        == Some(model.data)
}

/// The canonical image of a frame, or the error that its bytes lead to:
/// the normalizer's, or a refusal where a side is longer than an image can
/// have.
pub open spec fn frame_image(bytes: Seq<u8>, width: int, height: int) -> Result<
    ImageModel,
    ErrorModel,
> {
    match resolve_layout(bytes.len() as int, width, height) {
        Some((format, rows)) => if 4 * (width * rows) > usize::MAX {
            Err(ErrorModel::CaptureFailure { reason: image_too_large() })
        } else if width > max_side() || rows > max_side() {
            Err(ErrorModel::CaptureFailure { reason: image_refused() })
        } else {
            Ok(image_of(bytes, format, width, rows))
        },
        None => Err(unsupported(bytes.len() as int, width, height)),
    }
}

/// Whether a result is the one that the model names: the image that
/// shows it, or the error.
pub open spec fn realizes(
    actual: Result<DynamicImage, EbCaptureError>,
    expected: Result<ImageModel, ErrorModel>,
) -> bool {
    match expected {
        Ok(model) => actual matches Ok(img) && depicts(img, model),
        Err(error) => actual matches Err(e) && e@ == error,
    }
}

/// Converts a frame of the declared size to an image of the `image` crate.
///
/// The frame is normalized as [`frame_image`] states: its layout and height
/// come from its length, a frame that fits no layout is refused with
/// `UnsupportedPixelFormat`. For a frame of exactly `width * height * 4`
/// bytes whose sides an image can have, the image has the declared size
/// and each pixel is the frame's with blue and red swapped, alpha kept;
/// for one of exactly `width * height * 3` bytes every pixel is opaque.
pub fn convert_frame_to_image(frame: &[u8], width: usize, height: usize) -> (r: Result<
    DynamicImage,
    EbCaptureError,
>)
    ensures
        realizes(r, frame_image(frame@, width as int, height as int)),
        exact_size(frame@.len() as int, width as int, height as int, 4) && width <= max_side()
            && height <= max_side() ==> {
            &&& r matches Ok(img)
            &&& image_width(img) == width
            &&& image_height(img) == height
            &&& rgba_data(img) matches Some(data)
            &&& data.len() == 4 * (width * height)
            &&& swaps_blue_and_red(frame@, data, width * height)
        },
        exact_size(frame@.len() as int, width as int, height as int, 3) ==> (r matches Ok(img)
            ==> (rgba_data(img) matches Some(data) && all_opaque(
            data,
            (image_width(img) * image_height(img)) as int,
        ))),
{
    match normalize_frame(frame, width, height) {
        Ok(image) => match into_rgba_image(image) {
            Some(img) => Ok(img),
            None => Err(EbCaptureError::capture_failure("image buffer could not be created")),
        },
        Err(e) => Err(e),
    }
}

/// Cuts the window's rectangle out of a captured display.
///
/// The rectangle is first fitted to the image as [`clamped_region`] states,
/// so that it lies within the image; the cut is then exactly that
/// rectangle. It is never empty unless the image is, and for a rectangle
/// that does not lie within an image of at least the minimum size it is no
/// smaller than that size in either direction.
pub fn crop_image_to_window(image: DynamicImage, window_rect: &WindowRect) -> (r: Result<
    DynamicImage,
    EbCaptureError,
>)
    requires
        window_rect.valid(),
    ensures
        r matches Ok(out) && ({
            let iw = image_width(image) as int;
            let ih = image_height(image) as int;
            let (x, y, w, h) = clamped_region(*window_rect, iw, ih);
            &&& image_width(out) == w
            &&& image_height(out) == h
            &&& 0 <= x && x + w <= iw
            &&& 0 <= y && y + h <= ih
            &&& rgba_data(image) matches Some(src) ==> rgba_data(out) == Some(
                cropped(src, 4, iw, x, y, w, h),
            )
            &&& rgb_data(image) matches Some(src) ==> rgb_data(out) == Some(
                cropped(src, 3, iw, x, y, w, h),
            )
            &&& iw > 0 && ih > 0 ==> image_width(out) > 0 && image_height(out) > 0
            &&& iw >= MIN_REGION_SIZE && ih >= MIN_REGION_SIZE && !window_rect.lies_within(iw, ih)
                ==> image_width(out) >= MIN_REGION_SIZE && image_height(out) >= MIN_REGION_SIZE
        }),
{
    proof {
        lemma_clamped_region_is_usable(
            *window_rect,
            image_width(image) as int,
            image_height(image) as int,
        );
    }
    let (x, y, w, h) = clamp_region(window_rect, image.width(), image.height());
    Ok(image.crop_imm(x, y, w, h))
}

} // verus!
