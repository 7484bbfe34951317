//! Raster images and their PNG form.
//!
//! Pictures cross the clipboard as rows of RGBA pixels and cross the wire as
//! PNG. The codec itself is the `png` crate; what this module decides is how a
//! picture is handed to it and what is made of the frame that comes back.

use vstd::prelude::*;
use vstd::string::StringExecFns;

verus! {

/// An uncompressed picture as the clipboard device holds it: `height` rows of
/// `width` pixels, four bytes (red, green, blue, alpha) per pixel.
#[derive(Debug, Clone, PartialEq, Eq)]
pub struct RawImage {
    pub width: usize,
    pub height: usize,
    pub bytes: Vec<u8>,
}

/// The mathematical content of a [`RawImage`].
pub struct RawImageView {
    pub width: usize,
    pub height: usize,
    pub bytes: Seq<u8>,
}

impl View for RawImage {
    type V = RawImageView;

    open spec fn view(&self) -> RawImageView {
        RawImageView { width: self.width, height: self.height, bytes: self.bytes@ }
    }
}

/// Whether the picture has four bytes for each of its pixels.
pub open spec fn is_raster(img: RawImageView) -> bool {
    img.bytes.len() == 4 * img.width * img.height
}

/// Sample layout of a decoded PNG frame.
#[derive(Debug, Clone, Copy, PartialEq, Eq)]
pub enum PixelFormat {
    Grayscale,
    Rgb,
    Indexed,
    GrayscaleAlpha,
    Rgba,
}

/// One frame as the PNG decoder delivers it.
///
/// `buffer` is the whole output buffer; the frame occupies its first
/// `line_size * height` bytes.
#[derive(Debug, Clone, PartialEq, Eq)]
pub struct PngFrame {
    pub width: u32,
    pub height: u32,
    pub color: PixelFormat,
    pub line_size: usize,
    pub buffer: Vec<u8>,
}

/// The mathematical content of a [`PngFrame`].
pub struct PngFrameView {
    pub width: u32,
    pub height: u32,
    pub color: PixelFormat,
    pub line_size: nat,
    pub buffer: Seq<u8>,
}

impl View for PngFrame {
    type V = PngFrameView;

    open spec fn view(&self) -> PngFrameView {
        PngFrameView {
            width: self.width,
            height: self.height,
            color: self.color,
            line_size: self.line_size as nat,
            buffer: self.buffer@,
        }
    }
}

/// Why a picture could not be converted.
#[derive(Debug, Clone, PartialEq, Eq)]
pub enum ImageError {
    /// The picture needs more bytes than the machine can address.
    TooLarge,
    /// The encoder rejected the picture; the text is the encoder's.
    Encode(String),
    /// The bytes are no PNG the decoder accepts; the text is the decoder's.
    Decode(String),
    /// The decoder announced a frame larger than the buffer it filled.
    FrameOutOfBounds,
    /// The file is a PNG, but its samples are not 8-bit RGB or 8-bit RGBA.
    UnsupportedFormat,
}

impl ImageError {
    /// The text of [`ImageError::message`].
    pub open spec fn message_text(&self) -> Seq<char> {
        match self {
            ImageError::TooLarge => "Image is too large"@,
            ImageError::Encode(text) => text@,
            ImageError::Decode(text) => text@,
            ImageError::FrameOutOfBounds => "Decoded image exceeds its buffer"@,
            ImageError::UnsupportedFormat => "Image is not 8-bit RGB or RGBA"@,
        }
    }

    /// A sentence for the user.
    pub fn message(&self) -> (text: String)
        ensures
            text@ == self.message_text(),
    {
        match self {
            ImageError::TooLarge => String::from_str("Image is too large"),
            ImageError::Encode(text) => text.clone(),
            ImageError::Decode(text) => text.clone(),
            ImageError::FrameOutOfBounds => String::from_str("Decoded image exceeds its buffer"),
            ImageError::UnsupportedFormat => String::from_str("Image is not 8-bit RGB or RGBA"),
        }
    }
}

/// `png::EncodingError`, carried from the encoder to its text and never looked into.
#[verifier::external_type_specification]
#[verifier::external_body]
pub struct ExEncodingError(png::EncodingError);

/// `png::DecodingError`, carried from the decoder to its text and never looked into.
#[verifier::external_type_specification]
#[verifier::external_body]
pub struct ExDecodingError(png::DecodingError);

/// The PNG file that the encoder writes for an 8-bit RGBA picture of the given
/// size and pixel bytes, or `None` where it refuses the picture.
pub uninterp spec fn png_encoded(width: u32, height: u32, pixels: Seq<u8>) -> Option<Seq<u8>>;

/// The first frame that the decoder reads from the given bytes, or `None`
/// where it refuses them.
pub uninterp spec fn png_decoded(data: Seq<u8>) -> Option<PngFrameView>;

/// Whether the encoder's size arithmetic for a picture of these dimensions
/// stays within `usize`: one filter byte and four bytes per pixel in each row.
pub open spec fn encodable(width: u32, height: u32) -> bool {
    (4 * width + 1) * height <= usize::MAX
}

/// Runs `png::Encoder` (`new`, `set_color`, `set_depth`, `write_header`) and
/// `png::Writer::write_image_data` over an in-memory cursor.
///
/// Trusted: the bytes written are a function of the dimensions and pixel
/// bytes alone; the encoder refuses a zero width or height, refuses pixel
/// data whose length is not four bytes per pixel, and refuses nothing else:
/// past those two checks it fails only where a write fails, and it writes to
/// a vector. The encoder computes the length of a row and of the picture in
/// `usize` without a check, so dimensions for which that would overflow are
/// left out.
#[verifier::external_body]
fn encode_rgba8(width: u32, height: u32, pixels: &[u8]) -> (r: Result<Vec<u8>, png::EncodingError>)
    requires
        encodable(width, height),
    ensures
        match r {
            Ok(file) => png_encoded(width, height, pixels@) == Some(file@),
            Err(_) => png_encoded(width, height, pixels@) is None,
        },
        width == 0 || height == 0 ==> r is Err,
        pixels@.len() != 4 * width * height ==> r is Err,
        width > 0 && height > 0 && pixels@.len() == 4 * width * height ==> r is Ok,
{
    let mut file = Vec::new();
    let mut encoder = png::Encoder::new(std::io::Cursor::new(&mut file), width, height);
    encoder.set_color(png::ColorType::Rgba);
    encoder.set_depth(png::BitDepth::Eight);
    encoder.write_header()?.write_image_data(pixels)?;
    Ok(file)
}

/// Calls `to_string` on a `png::EncodingError`. Nothing is claimed of the text.
#[verifier::external_body]
fn encoding_error_text(error: &png::EncodingError) -> String {
    error.to_string()
}

/// The PNG file of a picture, where it has one.
///
/// Width and height are taken modulo 2^32, the range of a PNG header field.
pub open spec fn png_of_image(img: RawImageView) -> Option<Seq<u8>> {
    if encodable(img.width as u32, img.height as u32) {
        png_encoded(img.width as u32, img.height as u32, img.bytes)
    } else {
        None
    }
}

/// Whether the encoder takes the picture: it has pixels, four bytes for each,
/// and dimensions that are [`encodable`]. Width and height are taken modulo
/// 2^32.
pub open spec fn is_encodable_raster(img: RawImageView) -> bool {
    &&& img.width as u32 > 0
    &&& img.height as u32 > 0
    &&& encodable(img.width as u32, img.height as u32)
    &&& img.bytes.len() == 4 * (img.width as u32) * (img.height as u32)
}

/// What [`image_to_png`] answers for a picture: its PNG file, `TooLarge` where
/// the dimensions are not [`encodable`], `Encode` where the encoder refuses.
pub open spec fn is_png_result(img: RawImageView, r: Result<Vec<u8>, ImageError>) -> bool {
    match r {
        Ok(file) => png_of_image(img) == Some(file@),
        Err(ImageError::TooLarge) => !encodable(img.width as u32, img.height as u32),
        Err(ImageError::Encode(_)) => encodable(img.width as u32, img.height as u32)
            && png_of_image(img) is None,
        Err(_) => false,
    }
}

/// Whether the bytes are a PNG file that holds a picture: the decoder reads a
/// frame from them, and the frame gives a picture.
pub open spec fn is_picture(data: Seq<u8>) -> bool {
    png_decoded(data) matches Some(frame) && image_of_frame(frame) is Ok
}

/// What [`png_to_image`] answers for a file: the picture of its first frame,
/// `Decode` where the decoder refuses the file, or the frame's own error.
pub open spec fn is_image_result(data: Seq<u8>, r: Result<RawImage, ImageError>) -> bool {
    match png_decoded(data) {
        Some(frame) => match r {
            Ok(img) => image_of_frame(frame) == Ok::<RawImageView, ImageError>(img@),
            Err(e) => image_of_frame(frame) == Err::<RawImageView, ImageError>(e),
        },
        None => r matches Err(ImageError::Decode(_)),
    }
}

/// Encodes a picture as PNG with 8-bit RGBA samples.
///
/// Width and height are taken modulo 2^32, the range of a PNG header field.
/// A picture with pixels and four bytes for each is encoded; one without
/// pixels, or whose bytes are not four per pixel, is refused.
pub fn image_to_png(img: &RawImage) -> (r: Result<Vec<u8>, ImageError>)
    ensures
        is_png_result(img@, r),
        r is Ok <==> is_encodable_raster(img@),
{
    let width = #[verifier::truncate] (img.width as u32);
    let height = #[verifier::truncate] (img.height as u32);
    let row: u128 = 4 * (width as u128) + 1;
    assert(row * height <= 0x4_0000_0000 * 0x1_0000_0000) by (nonlinear_arith)
        requires
            0 <= row <= 0x4_0000_0000,
            0 <= height <= 0x1_0000_0000,
    ;
    let total: u128 = row * (height as u128);
    if total > usize::MAX as u128 {
        return Err(ImageError::TooLarge);
    }
    match encode_rgba8(width, height, img.bytes.as_slice()) {
        Ok(file) => Ok(file),
        Err(error) => Err(ImageError::Encode(encoding_error_text(&error))),
    }
}

/// Runs `png::Decoder::new`, `read_info` and `png::Reader::next_frame` over
/// the given bytes, with a buffer of `Reader::output_buffer_size` bytes.
///
/// Trusted: the frame read is a function of the bytes alone.
#[verifier::external_body]
fn decode_frame(data: &[u8]) -> (r: Result<PngFrame, png::DecodingError>)
    ensures
        match r {
            Ok(frame) => png_decoded(data@) == Some(frame@),
            Err(_) => png_decoded(data@) is None,
        },
{
    let mut reader = png::Decoder::new(std::io::Cursor::new(data)).read_info()?;
    let mut buffer = vec![0; reader.output_buffer_size()];
    let info = reader.next_frame(&mut buffer)?;
    let color = match info.color_type {
        png::ColorType::Grayscale => PixelFormat::Grayscale,
        png::ColorType::Rgb => PixelFormat::Rgb,
        png::ColorType::Indexed => PixelFormat::Indexed,
        png::ColorType::GrayscaleAlpha => PixelFormat::GrayscaleAlpha,
        png::ColorType::Rgba => PixelFormat::Rgba,
    };
    Ok(PngFrame { width: info.width, height: info.height, color, line_size: info.line_size, buffer })
}

/// Calls `to_string` on a `png::DecodingError`. Nothing is claimed of the text.
#[verifier::external_body]
fn decoding_error_text(error: &png::DecodingError) -> String {
    error.to_string()
}

/// Length of `len` samples once every group of three has its alpha byte.
pub open spec fn alpha_len(len: nat) -> nat {
    len + (len + 2) / 3
}

/// The samples of `pixels` with an opaque alpha byte closing every group of
/// three, and closing a shorter last group too.
///
/// Byte `j` of the result is alpha where `j` ends a group of four or ends the
/// sequence; otherwise it is the sample that `j / 4` alpha bytes precede.
pub open spec fn with_alpha(pixels: Seq<u8>) -> Seq<u8> {
    let len = alpha_len(pixels.len());
    Seq::new(
        len,
        |j: int|
            if j % 4 == 3 || j == len - 1 {
                255u8
            } else {
                pixels[j - j / 4]
            },
    )
}

/// Number of bytes a frame claims of its buffer.
pub open spec fn frame_size(frame: PngFrameView) -> nat {
    frame.line_size * (frame.height as nat)
}

/// Whether the frame holds 8-bit RGBA samples: four bytes per pixel in a row.
pub open spec fn is_rgba8(frame: PngFrameView) -> bool {
    frame.color == PixelFormat::Rgba && frame.line_size == 4 * frame.width
}

/// Whether the frame holds 8-bit RGB samples: three bytes per pixel in a row.
pub open spec fn is_rgb8(frame: PngFrameView) -> bool {
    frame.color == PixelFormat::Rgb && frame.line_size == 3 * frame.width
}

/// The picture a decoded frame stands for, or the reason it stands for none.
///
/// A frame of 8-bit RGBA samples is the picture as it is. A frame of 8-bit
/// RGB samples is the picture once every pixel has an opaque alpha. A frame
/// of any other layout or depth stands for no picture.
pub open spec fn image_of_frame(frame: PngFrameView) -> Result<RawImageView, ImageError> {
    if !is_rgba8(frame) && !is_rgb8(frame) {
        Err(ImageError::UnsupportedFormat)
    } else if frame_size(frame) > frame.buffer.len() {
        Err(ImageError::FrameOutOfBounds)
    } else if is_rgb8(frame) && alpha_len(frame_size(frame)) > usize::MAX {
        Err(ImageError::TooLarge)
    } else {
        let samples = frame.buffer.subrange(0, frame_size(frame) as int);
        Ok(
            RawImageView {
                width: frame.width as usize,
                height: frame.height as usize,
                bytes: if is_rgba8(frame) {
                    samples
                } else {
                    with_alpha(samples)
                },
            },
        )
    }
}

/// The picture of a frame has four bytes for each of its pixels.
pub proof fn lemma_frame_picture_is_raster(frame: PngFrameView)
    ensures
        image_of_frame(frame) matches Ok(img) ==> is_raster(img),
{
    if image_of_frame(frame) is Ok {
        let w = frame.width as int;
        let h = frame.height as int;
        if is_rgba8(frame) {
            assert(frame_size(frame) == 4 * w * h) by (nonlinear_arith)
                requires
                    frame_size(frame) == frame.line_size * h,
                    frame.line_size == 4 * w,
            ;
        } else {
            assert(frame_size(frame) == 3 * (w * h)) by (nonlinear_arith)
                requires
                    frame_size(frame) == frame.line_size * h,
                    frame.line_size == 3 * w,
            ;
            assert(4 * (w * h) == 4 * w * h) by (nonlinear_arith);
        }
    }
}

/// Appends an opaque alpha byte to every group of three samples.
pub fn add_alpha(pixels: &[u8]) -> (rgba: Vec<u8>)
    requires
        alpha_len(pixels@.len()) <= usize::MAX,
    ensures
        rgba@ == with_alpha(pixels@),
{
    let mut rgba: Vec<u8> = Vec::new();
    let mut i: usize = 0;
    while i < pixels.len()
        invariant
            i <= pixels@.len(),
            alpha_len(pixels@.len()) <= usize::MAX,
            rgba@.len() == i + i / 3,
            forall|j: int|
                0 <= j < rgba@.len() ==> rgba@[j] == (if j % 4 == 3 {
                    255u8
                } else {
                    pixels@[j - j / 4]
                }),
        decreases pixels@.len() - i,
    {
        rgba.push(pixels[i]);
        i += 1;
        if i % 3 == 0 {
            rgba.push(255);
        }
    }
    if i % 3 != 0 {
        rgba.push(255);
    }
    assert(rgba@ =~= with_alpha(pixels@));
    rgba
}

/// Turns a decoded frame into a picture for the clipboard.
///
/// A frame of 8-bit RGBA samples is taken as it is. A frame of 8-bit RGB
/// samples gets an opaque alpha for every pixel. Any other frame is refused.
pub fn frame_to_image(frame: PngFrame) -> (r: Result<RawImage, ImageError>)
    ensures
        match r {
            Ok(img) => image_of_frame(frame@) == Ok::<RawImageView, ImageError>(img@),
            Err(e) => image_of_frame(frame@) == Err::<RawImageView, ImageError>(e),
        },
        r matches Ok(img) ==> is_raster(img@),
{
    proof {
        lemma_frame_picture_is_raster(frame@);
    }
    let row = frame.line_size as u64;
    let width = frame.width as u64;
    let rgba = match frame.color {
        PixelFormat::Rgba => row == 4 * width,
        _ => false,
    };
    let rgb = match frame.color {
        PixelFormat::Rgb => row == 3 * width,
        _ => false,
    };
    if !rgba && !rgb {
        return Err(ImageError::UnsupportedFormat);
    }
    let available = frame.buffer.len();
    let size = match frame.line_size.checked_mul(frame.height as usize) {
        Some(size) => size,
        None => {
            assert(frame_size(frame@) > frame.buffer@.len()) by (nonlinear_arith)
                requires
                    frame.line_size * (frame.height as usize) > usize::MAX,
                    frame_size(frame@) == frame.line_size * (frame.height as usize),
                    frame.buffer@.len() == available,
            ;
            return Err(ImageError::FrameOutOfBounds);
        },
    };
    if size > available {
        return Err(ImageError::FrameOutOfBounds);
    }
    let samples = vstd::slice::slice_subrange(frame.buffer.as_slice(), 0, size);
    let bytes = if rgba {
        vstd::slice::slice_to_vec(samples)
    } else {
        if size / 3 + 1 > usize::MAX - size {
            return Err(ImageError::TooLarge);
        }
        add_alpha(samples)
    };
    Ok(RawImage { width: frame.width as usize, height: frame.height as usize, bytes })
}

/// Decodes a PNG file into a picture for the clipboard: 8-bit RGBA, four
/// bytes for each pixel.
pub fn png_to_image(data: &[u8]) -> (r: Result<RawImage, ImageError>)
    ensures
        is_image_result(data@, r),
        r matches Ok(img) ==> is_raster(img@),
{
    match decode_frame(data) {
        Ok(frame) => frame_to_image(frame),
        Err(error) => Err(ImageError::Decode(decoding_error_text(&error))),
    }
}

} // verus!
