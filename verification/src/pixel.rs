//! Pixel-format normalization.
//!
//! A capture backend hands over a byte buffer together with the width and
//! height it was asked for. Neither the channel order nor the real height is
//! labelled: both are read off the buffer's length. This module decides the
//! layout, recovers the height where the buffer belongs to another resolution,
//! and reorders the bytes into red-green-blue-alpha, top row first.

use vstd::prelude::*;
use crate::error::{EbCaptureError, ErrorModel};

verus! {

/// Byte order and channel count of one pixel in a raw buffer.
#[derive(Debug, Clone, Copy, PartialEq, Eq, Structural)]
pub enum PixelFormat {
    /// Four bytes: blue, green, red, alpha.
    Bgra,
    /// Four bytes: red, green, blue, alpha.
    Rgba,
    /// Three bytes: blue, green, red.
    Bgr,
    /// Three bytes: red, green, blue.
    Rgb,
}

impl PixelFormat {
    /// Bytes that one pixel takes in this layout.
    pub open spec fn stride(self) -> int {
        match self {
            PixelFormat::Bgra | PixelFormat::Rgba => 4,
            PixelFormat::Bgr | PixelFormat::Rgb => 3,
        }
    }

    /// Bytes that one pixel takes in this layout.
    pub fn bytes_per_pixel(&self) -> (n: usize)
        ensures
            n == self.stride(),
    {
        match self {
            PixelFormat::Bgra | PixelFormat::Rgba => 4,
            PixelFormat::Bgr | PixelFormat::Rgb => 3,
        }
    }
}

/// Whether `len` bytes are exactly `width` by `height` pixels of `stride` bytes.
pub open spec fn exact_size(len: int, width: int, height: int, stride: int) -> bool {
    len == width * height * stride
}

/// The number of rows of `width` pixels in a buffer of `len` bytes, where the
/// rows fill the buffer exactly.
pub open spec fn whole_rows(len: int, width: int, stride: int) -> Option<int> {
    let row = width * stride;
    if row > 0 && row * (len / row) == len {
        Some(len / row)
    } else {
        None
    }
}

/// The height that a buffer of `len` bytes has at `stride` bytes per pixel if
/// it was captured at another resolution than the declared one: the number of
/// whole rows in the buffer, taken only if there is at least one row, at most
/// twice the declared number, and the rows fill the buffer exactly.
pub open spec fn recovered_height(len: int, width: int, height: int, stride: int) -> Option<int> {
    match whole_rows(len, width, stride) {
        Some(rows) => if 0 < rows <= height * 2 {
            Some(rows)
        } else {
            None
        },
        None => None,
    }
}

/// The layout and height that a buffer's length stands for. An exact match of
/// the declared size wins, four bytes per pixel before three, and blue comes
/// first in either; only then is a height recovered, in the same order.
pub open spec fn resolve_layout(len: int, width: int, height: int) -> Option<(PixelFormat, int)> {
    if exact_size(len, width, height, 4) {
        Some((PixelFormat::Bgra, height))
    } else if exact_size(len, width, height, 3) {
        Some((PixelFormat::Bgr, height))
    } else if recovered_height(len, width, height, 4) is Some {
        Some((PixelFormat::Bgra, recovered_height(len, width, height, 4).unwrap()))
    } else if recovered_height(len, width, height, 3) is Some {
        Some((PixelFormat::Bgr, recovered_height(len, width, height, 3).unwrap()))
    } else {
        None
    }
}

/// Red, green, blue and alpha of pixel `index` of a frame in `format`. A
/// layout without alpha yields an opaque pixel.
pub open spec fn rgba_at(frame: Seq<u8>, format: PixelFormat, index: int) -> Seq<u8> {
    let base = index * format.stride();
    match format {
        PixelFormat::Bgra => seq![frame[base + 2], frame[base + 1], frame[base], frame[base + 3]],
        PixelFormat::Rgba => seq![frame[base], frame[base + 1], frame[base + 2], frame[base + 3]],
        PixelFormat::Bgr => seq![frame[base + 2], frame[base + 1], frame[base], 255u8],
        PixelFormat::Rgb => seq![frame[base], frame[base + 1], frame[base + 2], 255u8],
    }
}

/// The canonical bytes of the first `count` pixels of a frame in `format`.
pub open spec fn to_rgba(frame: Seq<u8>, format: PixelFormat, count: int) -> Seq<u8> {
    Seq::new((4 * count) as nat, |j: int| rgba_at(frame, format, j / 4)[j % 4])
}

/// The error for a buffer whose size fits no layout.
pub open spec fn unsupported(len: int, width: int, height: int) -> ErrorModel {
    ErrorModel::UnsupportedPixelFormat { byte_length: len, width, height }
}

/// Tests `len == width * height * stride` without overflow.
fn is_exact_size(len: usize, width: usize, height: usize, stride: usize) -> (b: bool)
    requires
        stride >= 1,
    ensures
        b == exact_size(len as int, width as int, height as int, stride as int),
{
    match width.checked_mul(height) {
        Some(pixels) => match pixels.checked_mul(stride) {
            Some(bytes) => bytes == len,
            None => false,
        },
        None => {
            assert(width * height * stride > usize::MAX) by (nonlinear_arith)
                requires
                    width * height > usize::MAX,
                    stride >= 1,
            ;
            false
        },
    }
}

/// Computes [`whole_rows`] without overflow.
fn count_whole_rows(len: usize, width: usize, stride: usize) -> (r: Option<usize>)
    requires
        stride >= 1,
    ensures
        match whole_rows(len as int, width as int, stride as int) {
            Some(rows) => r == Some(rows as usize) && 0 <= rows <= len,
            None => r is None,
        },
{
    match width.checked_mul(stride) {
        Some(row) => {
            if row == 0 {
                return None;
            }
            let rows: usize = len / row;
            assert(rows <= len) by (nonlinear_arith)
                requires
                    rows == len as int / row as int,
                    row > 0,
            ;
            match row.checked_mul(rows) {
                Some(bytes) => if bytes == len {
                    Some(rows)
                } else {
                    None
                },
                None => None,
            }
        },
        None => {
            assert(len as int / (width * stride) == 0) by (nonlinear_arith)
                requires
                    width * stride > usize::MAX,
                    0 <= len <= usize::MAX,
            ;
            assert((width * stride) * 0 == 0) by (nonlinear_arith);
            if len == 0 {
                Some(0)
            } else {
                None
            }
        },
    }
}

/// Computes [`recovered_height`] without overflow.
fn recover_height(len: usize, width: usize, height: usize, stride: usize) -> (r: Option<usize>)
    requires
        stride >= 1,
    ensures
        match recovered_height(len as int, width as int, height as int, stride as int) {
            Some(rows) => r == Some(rows as usize) && 0 < rows <= len,
            None => r is None,
        },
{
    match count_whole_rows(len, width, stride) {
        Some(rows) => {
            let in_range: bool = match height.checked_mul(2) {
                Some(limit) => rows <= limit,
                None => true,
            };
            if rows > 0 && in_range {
                Some(rows)
            } else {
                None
            }
        },
        None => None,
    }
}

/// Decides the pixel layout from the buffer's length alone.
///
/// Returns the layout of [`resolve_layout`], or `UnsupportedPixelFormat` with
/// the three numbers where no layout fits.
pub fn detect_pixel_format(frame: &[u8], width: usize, height: usize) -> (r: Result<
    PixelFormat,
    EbCaptureError,
>)
    ensures
        match resolve_layout(frame@.len() as int, width as int, height as int) {
            Some((format, _)) => r == Ok::<PixelFormat, EbCaptureError>(format),
            None => r matches Err(e) && e@ == unsupported(
                frame@.len() as int,
                width as int,
                height as int,
            ),
        },
{
    let len: usize = frame.len();
    if is_exact_size(len, width, height, 4) {
        return Ok(PixelFormat::Bgra);
    }
    if is_exact_size(len, width, height, 3) {
        return Ok(PixelFormat::Bgr);
    }
    if recover_height(len, width, height, 4).is_some() {
        return Ok(PixelFormat::Bgra);
    }
    if recover_height(len, width, height, 3).is_some() {
        return Ok(PixelFormat::Bgr);
    }
    Err(EbCaptureError::UnsupportedPixelFormat { byte_length: len, width, height })
}

/// A raw capture buffer with the width and height its producer declared.
/// It is handed to the normalizer by value and never changed.
#[derive(Debug, Clone, PartialEq, Eq)]
pub struct RawFrame {
    pub bytes: Vec<u8>,
    pub width: usize,
    pub height: usize,
}

/// Mathematical model of an image: its size and its bytes, row by row from
/// the top, pixel by pixel from the left.
pub ghost struct ImageModel {
    pub width: int,
    pub height: int,
    pub data: Seq<u8>,
}

/// A canonical image: four bytes per pixel in the order red, green, blue,
/// alpha, top row first. The buffer always holds `width * height` pixels.
#[derive(Debug, PartialEq, Eq)]
pub struct NormalizedImage {
    width: usize,
    height: usize,
    data: Vec<u8>,
}

impl View for NormalizedImage {
    type V = ImageModel;

    closed spec fn view(&self) -> ImageModel {
        ImageModel { width: self.width as int, height: self.height as int, data: self.data@ }
    }
}

impl Clone for NormalizedImage {
    fn clone(&self) -> (r: Self)
        ensures
            r@ == self@,
    {
        proof {
            use_type_invariant(self);
        }
        let data: Vec<u8> = self.data.clone();
        assert(data@ =~= self.data@);
        NormalizedImage { width: self.width, height: self.height, data }
    }
}

impl NormalizedImage {
    #[verifier::type_invariant]
    spec fn sized(self) -> bool {
        self.data@.len() == 4 * self.width * self.height
    }

    /// Wraps canonical bytes; `None` unless there are exactly
    /// `4 * width * height` of them.
    pub fn new(width: usize, height: usize, data: Vec<u8>) -> (r: Option<NormalizedImage>)
        ensures
            r is Some <==> data@.len() == 4 * width * height,
            r matches Some(img) ==> img@ == (ImageModel {
                width: width as int,
                height: height as int,
                data: data@,
            }),
    {
        if is_exact_size(data.len(), width, height, 4) {
            assert(width * height * 4 == 4 * width * height) by (nonlinear_arith);
            Some(NormalizedImage { width, height, data })
        } else {
            assert(width * height * 4 == 4 * width * height) by (nonlinear_arith);
            None
        }
    }

    /// Pixels per row.
    pub fn width(&self) -> (w: usize)
        ensures
            w == self@.width,
    {
        self.width
    }

    /// Number of rows.
    pub fn height(&self) -> (h: usize)
        ensures
            h == self@.height,
    {
        self.height
    }

    /// The canonical bytes.
    pub fn as_bytes(&self) -> (bytes: &[u8])
        ensures
            bytes@ == self@.data,
            bytes@.len() == 4 * self@.width * self@.height,
    {
        proof {
            use_type_invariant(self);
        }
        self.data.as_slice()
    }

    /// Gives up the canonical bytes.
    pub fn into_raw(self) -> (bytes: Vec<u8>)
        ensures
            bytes@ == self@.data,
            bytes@.len() == 4 * self@.width * self@.height,
    {
        proof {
            use_type_invariant(&self);
        }
        self.data
    }
}

/// Reorders the first `count` pixels of `frame` into canonical bytes.
fn reorder(frame: &[u8], format: PixelFormat, count: usize) -> (out: Vec<u8>)
    requires
        count * format.stride() <= frame@.len(),
        4 * count <= usize::MAX,
    ensures
        out@ == to_rgba(frame@, format, count as int),
{
    let stride: usize = format.bytes_per_pixel();
    let mut out: Vec<u8> = Vec::new();
    let mut i: usize = 0;
    let mut base: usize = 0;
    while i < count
        invariant
            i <= count,
            base == i * stride,
            stride == format.stride(),
            count * stride <= frame@.len(),
            4 * count <= usize::MAX,
            out@ == to_rgba(frame@, format, i as int),
        decreases count - i,
    {
        assert(base + stride <= count * stride && (i + 1) * stride == base + stride)
            by (nonlinear_arith)
            requires
                base == i * stride,
                i < count,
                stride > 0,
        ;
        match format {
            PixelFormat::Bgra => {
                out.push(frame[base + 2]);
                out.push(frame[base + 1]);
                out.push(frame[base]);
                out.push(frame[base + 3]);
            },
            PixelFormat::Rgba => {
                out.push(frame[base]);
                out.push(frame[base + 1]);
                out.push(frame[base + 2]);
                out.push(frame[base + 3]);
            },
            PixelFormat::Bgr => {
                out.push(frame[base + 2]);
                out.push(frame[base + 1]);
                out.push(frame[base]);
                out.push(255);
            },
            PixelFormat::Rgb => {
                out.push(frame[base]);
                out.push(frame[base + 1]);
                out.push(frame[base + 2]);
                out.push(255);
            },
        }
        i = i + 1;
        base = base + stride;
        assert(out@ =~= to_rgba(frame@, format, i as int));
    }
    out
}

/// The error of a conversion to an image of the given size: the buffer is
/// refused as unsupported where it holds fewer whole pixels than the image
/// has; where it holds enough, the canonical form does not fit in memory.
pub open spec fn conversion_error(len: int, width: int, height: int, stride: int) -> ErrorModel {
    if width * height <= len / stride {
        ErrorModel::CaptureFailure { reason: image_too_large() }
    } else {
        unsupported(len, width, height)
    }
}

/// Whether a buffer of `len` bytes holds `width * height` whole pixels of
/// `stride` bytes, and their canonical form fits in memory.
pub open spec fn holds_image(len: int, width: int, height: int, stride: int) -> bool {
    width * height <= len / stride && 4 * (width * height) <= usize::MAX
}

/// The model of the image that the first `width * height` pixels of a frame
/// make up.
pub open spec fn image_of(frame: Seq<u8>, format: PixelFormat, width: int, height: int)
    -> ImageModel {
    ImageModel { width, height, data: to_rgba(frame, format, width * height) }
}

/// Converts a frame in a known layout to a canonical image of the given size.
///
/// Only whole pixel groups are read; bytes after the last whole group, and
/// groups beyond `width * height`, are left out. A buffer that holds fewer
/// groups than the image has pixels is refused with
/// `UnsupportedPixelFormat`.
pub fn convert_with_adjusted_size(
    frame: &[u8],
    width: usize,
    height: usize,
    format: PixelFormat,
) -> (r: Result<NormalizedImage, EbCaptureError>)
    ensures
        r is Ok <==> holds_image(frame@.len() as int, width as int, height as int, format.stride()),
        r matches Ok(img) ==> img@ == image_of(frame@, format, width as int, height as int),
        r matches Err(e) ==> e@ == conversion_error(
            frame@.len() as int,
            width as int,
            height as int,
            format.stride(),
        ),
{
    let stride: usize = format.bytes_per_pixel();
    let len: usize = frame.len();
    let groups: usize = len / stride;
    let pixels: usize = match width.checked_mul(height) {
        Some(p) => p,
        None => {
            return Err(EbCaptureError::UnsupportedPixelFormat { byte_length: len, width, height });
        },
    };
    if pixels > groups {
        return Err(EbCaptureError::UnsupportedPixelFormat { byte_length: len, width, height });
    }
    if pixels > usize::MAX / 4 {
        return Err(EbCaptureError::capture_failure("canonical image does not fit in memory"));
    }
    assert(pixels * stride <= frame@.len()) by (nonlinear_arith)
        requires
            pixels <= groups,
            groups == frame@.len() as int / stride as int,
            stride > 0,
    ;
    let data: Vec<u8> = reorder(frame, format, pixels);
    assert(data@.len() == 4 * width * height) by (nonlinear_arith)
        requires
            data@.len() == 4 * pixels,
            pixels == width * height,
    ;
    Ok(NormalizedImage { width, height, data })
}

/// Converts a frame of exactly `width * height` blue-green-red-alpha pixels.
pub fn convert_bgra_to_rgba_fixed(frame: &[u8], width: usize, height: usize) -> (r: Result<
    NormalizedImage,
    EbCaptureError,
>)
    ensures
        r is Ok <==> exact_size(frame@.len() as int, width as int, height as int, 4),
        r matches Ok(img) ==> img@ == image_of(
            frame@,
            PixelFormat::Bgra,
            width as int,
            height as int,
        ),
        r matches Ok(img) ==> swaps_blue_and_red(frame@, img@.data, width * height),
        r matches Err(e) ==> e@ == unsupported(frame@.len() as int, width as int, height as int),
{
    if !is_exact_size(frame.len(), width, height, 4) {
        return Err(
            EbCaptureError::UnsupportedPixelFormat { byte_length: frame.len(), width, height },
        );
    }
    let pixels: usize = frame.len() / 4;
    let data: Vec<u8> = reorder(frame, PixelFormat::Bgra, pixels);
    proof {
        lemma_bgra_swaps(frame@, pixels as int);
    }
    assert(data@.len() == 4 * width * height) by (nonlinear_arith)
        requires
            data@.len() == 4 * pixels,
            pixels == width * height,
    ;
    Ok(NormalizedImage { width, height, data })
}

/// Converts a frame of exactly `width * height` blue-green-red pixels; every
/// pixel of the result is opaque.
pub fn convert_bgr_to_rgba_fixed(frame: &[u8], width: usize, height: usize) -> (r: Result<
    NormalizedImage,
    EbCaptureError,
>)
    ensures
        r is Ok <==> exact_size(frame@.len() as int, width as int, height as int, 3) && 4 * (
        width * height) <= usize::MAX,
        r matches Ok(img) ==> img@ == image_of(
            frame@,
            PixelFormat::Bgr,
            width as int,
            height as int,
        ),
        r matches Ok(img) ==> all_opaque(img@.data, width * height),
        r matches Err(e) ==> e@ == (if exact_size(
            frame@.len() as int,
            width as int,
            height as int,
            3,
        ) {
            ErrorModel::CaptureFailure { reason: image_too_large() }
        } else {
            unsupported(frame@.len() as int, width as int, height as int)
        }),
{
    if !is_exact_size(frame.len(), width, height, 3) {
        return Err(
            EbCaptureError::UnsupportedPixelFormat { byte_length: frame.len(), width, height },
        );
    }
    let pixels: usize = frame.len() / 3;
    if pixels > usize::MAX / 4 {
        return Err(EbCaptureError::capture_failure("canonical image does not fit in memory"));
    }
    let data: Vec<u8> = reorder(frame, PixelFormat::Bgr, pixels);
    proof {
        lemma_three_bytes_opaque(frame@, PixelFormat::Bgr, pixels as int);
    }
    assert(data@.len() == 4 * width * height) by (nonlinear_arith)
        requires
            data@.len() == 4 * pixels,
            pixels == width * height,
    ;
    Ok(NormalizedImage { width, height, data })
}

/// The height at which a frame in a known layout is converted: the declared
/// one where the size matches it, else the recovered one, which is at least
/// one row and at most twice the declared number.
pub open spec fn adjusted_height(len: int, width: int, height: int, stride: int) -> Option<int> {
    if exact_size(len, width, height, stride) {
        Some(height)
    } else {
        recovered_height(len, width, height, stride)
    }
}

/// Converts a frame in a known layout, correcting the height where the
/// buffer belongs to another resolution of the same width.
///
/// A length that fits neither the declared size nor a recovered height is
/// refused with `UnsupportedPixelFormat`.
pub fn convert_with_format(frame: &[u8], width: usize, height: usize, format: PixelFormat) -> (r:
    Result<NormalizedImage, EbCaptureError>)
    ensures
        match adjusted_height(
            frame@.len() as int,
            width as int,
            height as int,
            format.stride(),
        ) {
            Some(rows) => {
                &&& r is Ok <==> holds_image(
                    frame@.len() as int,
                    width as int,
                    rows,
                    format.stride(),
                )
                &&& r matches Ok(img) ==> img@ == image_of(frame@, format, width as int, rows)
                &&& r matches Err(e) ==> e@ == (ErrorModel::CaptureFailure {
                    reason: image_too_large(),
                })
            },
            None => r matches Err(e) && e@ == unsupported(
                frame@.len() as int,
                width as int,
                height as int,
            ),
        },
{
    let stride: usize = format.bytes_per_pixel();
    if is_exact_size(frame.len(), width, height, stride) {
        proof {
            lemma_rows_fill(frame@.len() as int, width as int, height as int, stride as int);
        }
        return convert_with_adjusted_size(frame, width, height, format);
    }
    match recover_height(frame.len(), width, height, stride) {
        Some(rows) => {
            proof {
                lemma_rows_fill(frame@.len() as int, width as int, rows as int, stride as int);
            }
            convert_with_adjusted_size(frame, width, rows, format)
        },
        None => Err(
            EbCaptureError::UnsupportedPixelFormat { byte_length: frame.len(), width, height },
        ),
    }
}

/// The four canonical bytes of pixel `index` of an image's data.
pub open spec fn pixel(data: Seq<u8>, index: int) -> Seq<u8> {
    data.subrange(4 * index, 4 * index + 4)
}

/// Whether each of the first `count` canonical pixels is the frame's pixel
/// with blue and red swapped, green and alpha kept.
pub open spec fn swaps_blue_and_red(frame: Seq<u8>, data: Seq<u8>, count: int) -> bool {
    forall|i: int|
        0 <= i < count ==> #[trigger] pixel(data, i) == seq![
            frame[4 * i + 2],
            frame[4 * i + 1],
            frame[4 * i],
            frame[4 * i + 3],
        ]
}

/// Whether each of the first `count` canonical pixels is opaque.
pub open spec fn all_opaque(data: Seq<u8>, count: int) -> bool {
    forall|i: int| 0 <= i < count ==> (#[trigger] pixel(data, i))[3] == 255
}

/// Reason given when the canonical form of a frame does not fit in memory.
pub open spec fn image_too_large() -> Seq<char> {
    "canonical image does not fit in memory"@
}

/// The canonical bytes of a four-byte, blue-first frame swap blue and red.
pub proof fn lemma_bgra_swaps(frame: Seq<u8>, count: int)
    requires
        0 <= count,
        4 * count <= frame.len(),
    ensures
        swaps_blue_and_red(frame, to_rgba(frame, PixelFormat::Bgra, count), count),
{
    let data = to_rgba(frame, PixelFormat::Bgra, count);
    assert forall|i: int| 0 <= i < count implies #[trigger] pixel(data, i) == seq![
        frame[4 * i + 2],
        frame[4 * i + 1],
        frame[4 * i],
        frame[4 * i + 3],
    ] by {
        assert(pixel(data, i) =~= seq![
            frame[4 * i + 2],
            frame[4 * i + 1],
            frame[4 * i],
            frame[4 * i + 3],
        ]);
    }
}

/// The canonical bytes of a frame without alpha are opaque.
pub proof fn lemma_three_bytes_opaque(frame: Seq<u8>, format: PixelFormat, count: int)
    requires
        0 <= count,
        format.stride() == 3,
    ensures
        all_opaque(to_rgba(frame, format, count), count),
{
    let data = to_rgba(frame, format, count);
    assert forall|i: int| 0 <= i < count implies (#[trigger] pixel(data, i))[3] == 255 by {
        assert(pixel(data, i)[3] == data[4 * i + 3]);
    }
}

/// Whether `r` is what normalizing a frame of the declared size gives.
///
/// The layout and the height come from the buffer's length, as
/// [`resolve_layout`] states: the declared size at four bytes per pixel, then
/// at three, then a recovered height at four, then at three; blue is taken
/// to come first. A length that fits none of these is refused with
/// `UnsupportedPixelFormat`.
///
/// For a buffer of exactly `width * height * 4` bytes the image has the
/// declared size and each pixel is the input's with blue and red swapped.
/// For a buffer of exactly `width * height * 3` bytes every pixel is opaque.
pub open spec fn normalized_as(
    frame: Seq<u8>,
    width: int,
    height: int,
    r: Result<NormalizedImage, EbCaptureError>,
) -> bool {
    &&& match resolve_layout(frame.len() as int, width, height) {
        Some((format, rows)) => {
            &&& r is Ok <==> 4 * (width * rows) <= usize::MAX
            &&& r matches Ok(img) ==> img@ == image_of(frame, format, width, rows)
            &&& r matches Err(e) ==> e@ == (ErrorModel::CaptureFailure {
                reason: image_too_large(),
            })
        },
        None => r matches Err(e) && e@ == unsupported(frame.len() as int, width, height),
    }
    &&& exact_size(frame.len() as int, width, height, 4) ==> {
        &&& r matches Ok(img)
        &&& img@.width == width
        &&& img@.height == height
        &&& img@.data.len() == 4 * (width * height)
        &&& swaps_blue_and_red(frame, img@.data, width * height)
    }
    &&& exact_size(frame.len() as int, width, height, 3) ==> {
        &&& 4 * (width * height) <= usize::MAX ==> r is Ok
        &&& r matches Ok(img) ==> all_opaque(img@.data, img@.width * img@.height)
    }
}

/// Turns the bytes of a frame of the declared size into a canonical image,
/// as [`normalized_as`] states.
pub fn normalize_frame(frame: &[u8], width: usize, height: usize) -> (r: Result<
    NormalizedImage,
    EbCaptureError,
>)
    ensures
        normalized_as(frame@, width as int, height as int, r),
{
    let len: usize = frame.len();
    let format: PixelFormat;
    let rows: usize;
    if is_exact_size(len, width, height, 4) {
        format = PixelFormat::Bgra;
        rows = height;
    } else if is_exact_size(len, width, height, 3) {
        format = PixelFormat::Bgr;
        rows = height;
    } else {
        match recover_height(len, width, height, 4) {
            Some(recovered) => {
                format = PixelFormat::Bgra;
                rows = recovered;
            },
            None => match recover_height(len, width, height, 3) {
                Some(recovered) => {
                    format = PixelFormat::Bgr;
                    rows = recovered;
                },
                None => {
                    return Err(
                        EbCaptureError::UnsupportedPixelFormat { byte_length: len, width, height },
                    );
                },
            },
        }
    }
    proof {
        lemma_rows_fill(len as int, width as int, rows as int, format.stride());
        if format == PixelFormat::Bgra {
            lemma_bgra_swaps(frame@, width * rows);
        } else {
            lemma_three_bytes_opaque(frame@, format, width * rows);
        }
        if exact_size(len as int, width as int, height as int, 4) && exact_size(
            len as int,
            width as int,
            height as int,
            3,
        ) {
            assert(width * height == 0) by (nonlinear_arith)
                requires
                    width * height * 4 == width * height * 3,
            ;
        }
    }
    match convert_with_adjusted_size(frame, width, rows, format) {
        Ok(img) => Ok(img),
        Err(_) => Err(EbCaptureError::capture_failure("canonical image does not fit in memory")),
    }
}

/// Turns a raw frame into a canonical image.
///
/// The layout and the height come from the buffer's length, as
/// [`resolve_layout`] states: the declared size at four bytes per pixel, then
/// at three, then a recovered height at four, then at three; blue is taken
/// to come first. A length that fits none of these is refused with
/// `UnsupportedPixelFormat`.
///
/// For a buffer of exactly `width * height * 4` bytes the image has the
/// declared size and each pixel is the input's with blue and red swapped.
/// For a buffer of exactly `width * height * 3` bytes every pixel is opaque.
pub fn normalize(raw: RawFrame) -> (r: Result<NormalizedImage, EbCaptureError>)
    ensures
        match resolve_layout(raw.bytes@.len() as int, raw.width as int, raw.height as int) {
            Some((format, rows)) => {
                &&& r is Ok <==> 4 * (raw.width * rows) <= usize::MAX
                &&& r matches Ok(img) ==> img@ == image_of(
                    raw.bytes@,
                    format,
                    raw.width as int,
                    rows,
                )
                &&& r matches Err(e) ==> e@ == (ErrorModel::CaptureFailure {
                    reason: image_too_large(),
                })
            },
            None => r matches Err(e) && e@ == unsupported(
                raw.bytes@.len() as int,
                raw.width as int,
                raw.height as int,
            ),
        },
        exact_size(raw.bytes@.len() as int, raw.width as int, raw.height as int, 4) ==> {
            &&& r matches Ok(img)
            &&& img@.width == raw.width
            &&& img@.height == raw.height
            &&& img@.data.len() == 4 * (raw.width * raw.height)
            &&& swaps_blue_and_red(raw.bytes@, img@.data, raw.width * raw.height)
        },
        exact_size(raw.bytes@.len() as int, raw.width as int, raw.height as int, 3) ==> {
            &&& 4 * (raw.width * raw.height) <= usize::MAX ==> r is Ok
            &&& r matches Ok(img) ==> all_opaque(img@.data, img@.width * img@.height)
        },
{
    normalize_frame(raw.bytes.as_slice(), raw.width, raw.height)
}

/// Rows of `width` pixels that fill a buffer exactly make up that many whole
/// pixel groups.
proof fn lemma_rows_fill(len: int, width: int, rows: int, stride: int)
    requires
        stride > 0,
        0 <= width,
        0 <= rows,
        len == width * rows * stride || len == (width * stride) * rows,
    ensures
        width * rows == len / stride,
        4 * (width * rows) <= usize::MAX ==> holds_image(len, width, rows, stride),
        !(4 * (width * rows) <= usize::MAX) ==> !holds_image(len, width, rows, stride),
{
    assert(len == (width * rows) * stride) by (nonlinear_arith)
        requires
            len == width * rows * stride || len == (width * stride) * rows,
    ;
    assert(width * rows == len / stride) by (nonlinear_arith)
        requires
            len == (width * rows) * stride,
            stride > 0,
    ;
}

/// An image without alpha: three bytes per pixel in the order red, green,
/// blue, top row first. The buffer always holds `width * height` pixels.
#[derive(Debug, PartialEq, Eq)]
pub struct OpaqueImage {
    width: usize,
    height: usize,
    data: Vec<u8>,
}

impl View for OpaqueImage {
    type V = ImageModel;

    closed spec fn view(&self) -> ImageModel {
        ImageModel { width: self.width as int, height: self.height as int, data: self.data@ }
    }
}

impl Clone for OpaqueImage {
    fn clone(&self) -> (r: Self)
        ensures
            r@ == self@,
    {
        proof {
            use_type_invariant(self);
        }
        let data: Vec<u8> = self.data.clone();
        assert(data@ =~= self.data@);
        OpaqueImage { width: self.width, height: self.height, data }
    }
}

impl OpaqueImage {
    #[verifier::type_invariant]
    spec fn sized(self) -> bool {
        self.data@.len() == 3 * self.width * self.height
    }

    /// Wraps red-green-blue bytes; `None` unless there are exactly
    /// `3 * width * height` of them.
    pub fn new(width: usize, height: usize, data: Vec<u8>) -> (r: Option<OpaqueImage>)
        ensures
            r is Some <==> data@.len() == 3 * width * height,
            r matches Some(img) ==> img@ == (ImageModel {
                width: width as int,
                height: height as int,
                data: data@,
            }),
    {
        assert(width * height * 3 == 3 * width * height) by (nonlinear_arith);
        if is_exact_size(data.len(), width, height, 3) {
            Some(OpaqueImage { width, height, data })
        } else {
            None
        }
    }

    /// Pixels per row.
    pub fn width(&self) -> (w: usize)
        ensures
            w == self@.width,
    {
        self.width
    }

    /// Number of rows.
    pub fn height(&self) -> (h: usize)
        ensures
            h == self@.height,
    {
        self.height
    }

    /// The red-green-blue bytes.
    pub fn as_bytes(&self) -> (bytes: &[u8])
        ensures
            bytes@ == self@.data,
            bytes@.len() == 3 * self@.width * self@.height,
    {
        proof {
            use_type_invariant(self);
        }
        self.data.as_slice()
    }

    /// Gives up the red-green-blue bytes.
    pub fn into_raw(self) -> (bytes: Vec<u8>)
        ensures
            bytes@ == self@.data,
            bytes@.len() == 3 * self@.width * self@.height,
    {
        proof {
            use_type_invariant(&self);
        }
        self.data
    }
}

/// Red, green and blue of the first `count` pixels of a blue-first frame with
/// `stride` bytes per pixel; a fourth byte is dropped.
pub open spec fn to_rgb(frame: Seq<u8>, stride: int, count: int) -> Seq<u8> {
    Seq::new((3 * count) as nat, |j: int| frame[(j / 3) * stride + 2 - j % 3])
}

/// Reorders the first `count` pixels of a blue-first frame into red, green,
/// blue.
fn reorder_opaque(frame: &[u8], stride: usize, count: usize) -> (out: Vec<u8>)
    requires
        3 <= stride <= 4,
        count * stride <= frame@.len(),
    ensures
        out@ == to_rgb(frame@, stride as int, count as int),
{
    let len: usize = frame.len();
    let mut out: Vec<u8> = Vec::new();
    let mut i: usize = 0;
    let mut base: usize = 0;
    while i < count
        invariant
            i <= count,
            base == i * stride,
            3 <= stride <= 4,
            len == frame@.len(),
            count * stride <= len,
            out@ == to_rgb(frame@, stride as int, i as int),
        decreases count - i,
    {
        assert(base + stride <= count * stride && (i + 1) * stride == base + stride)
            by (nonlinear_arith)
            requires
                base == i * stride,
                i < count,
                stride > 0,
        ;
        out.push(frame[base + 2]);
        out.push(frame[base + 1]);
        out.push(frame[base]);
        i = i + 1;
        base = base + stride;
        assert(out@ =~= to_rgb(frame@, stride as int, i as int));
    }
    out
}

/// Converts a blue-green-red-alpha frame to an image without alpha.
///
/// Only whole four-byte groups are read. A buffer that holds fewer groups
/// than the image has pixels is refused with `UnsupportedPixelFormat`.
pub fn convert_bgra_to_rgb(frame: &[u8], width: usize, height: usize) -> (r: Result<
    OpaqueImage,
    EbCaptureError,
>)
    ensures
        r is Ok <==> width * height <= frame@.len() / 4,
        r matches Ok(img) ==> img@ == (ImageModel {
            width: width as int,
            height: height as int,
            data: to_rgb(frame@, 4, width * height),
        }),
        r matches Err(e) ==> e@ == unsupported(frame@.len() as int, width as int, height as int),
{
    let len: usize = frame.len();
    let groups: usize = len / 4;
    let pixels: usize = match width.checked_mul(height) {
        Some(p) => p,
        None => {
            return Err(EbCaptureError::UnsupportedPixelFormat { byte_length: len, width, height });
        },
    };
    if pixels > groups {
        return Err(EbCaptureError::UnsupportedPixelFormat { byte_length: len, width, height });
    }
    let data: Vec<u8> = reorder_opaque(frame, 4, pixels);
    assert(data@.len() == 3 * width * height) by (nonlinear_arith)
        requires
            data@.len() == 3 * pixels,
            pixels == width * height,
    ;
    Ok(OpaqueImage { width, height, data })
}

/// Reason given when a buffer holds not even one row of pixels.
pub open spec fn no_rows() -> Seq<char> {
    "frame holds no complete row of pixels"@
}

/// Bytes per pixel that the last-resort conversion takes a buffer to have:
/// four where whole four-byte rows fill it, else three.
pub open spec fn fallback_stride(len: int, width: int) -> int {
    if len % (width * 4) == 0 {
        4
    } else {
        3
    }
}

/// The last-resort image of a frame: as many whole rows as the buffer holds
/// at [`fallback_stride`], without alpha. `None` where the width is zero or
/// there is no whole row.
pub open spec fn fallback_image(frame: Seq<u8>, width: int) -> Option<ImageModel> {
    let stride = fallback_stride(frame.len() as int, width);
    let rows = frame.len() as int / (width * stride);
    if width > 0 && rows > 0 {
        Some(ImageModel { width, height: rows, data: to_rgb(frame, stride, width * rows) })
    } else {
        None
    }
}

/// Builds a picture of a frame without regard to its declared height: the
/// frame's whole rows, blue and red swapped, alpha dropped. This is no part
/// of normalization, which refuses a frame that fits no layout, and the
/// capture session never calls it; it serves a caller that wants to look
/// at such a frame.
pub fn bmp_fallback(frame: &[u8], width: usize) -> (r: Result<OpaqueImage, EbCaptureError>)
    ensures
        match fallback_image(frame@, width as int) {
            Some(model) => r matches Ok(img) && img@ == model,
            None => r matches Err(e) && e@ == (ErrorModel::CaptureFailure { reason: no_rows() }),
        },
{
    let len: usize = frame.len();
    if width == 0 {
        return Err(EbCaptureError::capture_failure("frame holds no complete row of pixels"));
    }
    let stride: usize = match width.checked_mul(4) {
        Some(row) => if len % row == 0 {
            4
        } else {
            3
        },
        None => {
            assert(len as int % (width * 4) == len) by (nonlinear_arith)
                requires
                    0 <= len < width * 4,
            ;
            if len == 0 {
                4
            } else {
                3
            }
        },
    };
    let rows: usize = match width.checked_mul(stride) {
        Some(row) => len / row,
        None => {
            assert(len as int / (width * stride) == 0) by (nonlinear_arith)
                requires
                    0 <= len < width * stride,
            ;
            0
        },
    };
    if rows == 0 {
        return Err(EbCaptureError::capture_failure("frame holds no complete row of pixels"));
    }
    assert(width * rows * stride <= len && width * rows <= len) by (nonlinear_arith)
        requires
            rows == len as int / (width * stride),
            width > 0,
            stride >= 3,
    ;
    let pixels: usize = width * rows;
    let data: Vec<u8> = reorder_opaque(frame, stride, pixels);
    assert(data@.len() == 3 * width * rows) by (nonlinear_arith)
        requires
            data@.len() == 3 * pixels,
            pixels == width * rows,
    ;
    Ok(OpaqueImage { width, height: rows, data })
}

/// The four bytes of `value`, lowest first.
pub open spec fn le_bytes(value: u32) -> Seq<u8> {
    seq![
        (value % 256) as u8,
        (value / 256 % 256) as u8,
        (value / 65536 % 256) as u8,
        (value / 16777216) as u8,
    ]
}

/// The 54-byte header of an uncompressed bitmap file with 24 bits per pixel:
/// the signature, the file size, the offset of the pixel data, then the
/// 40-byte description with width, height, one plane and the bit count. All
/// other fields are zero.
pub open spec fn bmp_header(width: u32, height: u32, file_size: u32) -> Seq<u8> {
    seq![0x42u8, 0x4Du8] + le_bytes(file_size) + seq![0u8, 0u8, 0u8, 0u8] + le_bytes(54)
        + le_bytes(40) + le_bytes(width) + le_bytes(height) + seq![1u8, 0u8, 24u8, 0u8]
        + Seq::new(24, |i: int| 0u8)
}

/// Writes the header of a 24-bit bitmap file.
pub fn create_bmp_header(width: u32, height: u32, file_size: u32) -> (header: [u8; 54])
    ensures
        header@ == bmp_header(width, height, file_size),
{
    let s0: u8 = (file_size % 256) as u8;
    let s1: u8 = (file_size / 256 % 256) as u8;
    let s2: u8 = (file_size / 65536 % 256) as u8;
    let s3: u8 = (file_size / 16777216) as u8;
    let w0: u8 = (width % 256) as u8;
    let w1: u8 = (width / 256 % 256) as u8;
    let w2: u8 = (width / 65536 % 256) as u8;
    let w3: u8 = (width / 16777216) as u8;
    let h0: u8 = (height % 256) as u8;
    let h1: u8 = (height / 256 % 256) as u8;
    let h2: u8 = (height / 65536 % 256) as u8;
    let h3: u8 = (height / 16777216) as u8;
    let header: [u8; 54] = [
        0x42, 0x4D, s0, s1, s2, s3, 0, 0, 0, 0, 54, 0, 0, 0,
        40, 0, 0, 0, w0, w1, w2, w3, h0, h1, h2, h3, 1, 0, 24, 0,
        0, 0, 0, 0, 0, 0, 0, 0, 0, 0, 0, 0, 0, 0, 0, 0, 0, 0, 0, 0, 0, 0, 0, 0,
    ];
    assert(header@ =~= bmp_header(width, height, file_size));
    header
}

} // verus!
