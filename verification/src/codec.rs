//! Frame codec: a pure transform from a raw RGBA pixel buffer to a base64
//! JPEG string — optional nearest-neighbor downscale to a maximum width,
//! alpha-channel truncation, lossy compression, base64 rendering.
//!
//! Resampling, JPEG compression and base64 rendering are delegated to their
//! crates through trusted wrappers; everything around them — the scaling
//! arithmetic, the alpha drop, the dimension policy — is verified.

use vstd::prelude::*;

use crate::error::Error;
use base64::Engine;

verus! {

/// Frames wider than this are downscaled before compression.
pub const LIVE_MAX_WIDTH: u32 = 1280;

/// Compression quality for live frames: small and fast over faithful.
pub const LIVE_JPEG_QUALITY: u8 = 50;

/// Thumbnails are downscaled to at most this width.
pub const THUMBNAIL_MAX_WIDTH: u32 = 320;

/// Compression quality for thumbnails: produced once per enumeration,
/// so a higher fidelity is affordable.
pub const THUMBNAIL_JPEG_QUALITY: u8 = 60;

/// The largest dimension the JPEG bitstream can carry.
pub const JPEG_MAX_DIM: u32 = 65535;

/// Width after scaling to a maximum width: unchanged if already narrow enough.
pub open spec fn spec_scaled_width(width: int, max_width: int) -> int {
    if width > max_width {
        max_width
    } else {
        width
    }
}

/// Height after scaling: the original height shrunk by `max_width / width`,
/// rounded to the nearest whole pixel (half rounds up), or unchanged if the
/// width already fits.
pub open spec fn spec_scaled_height(width: int, height: int, max_width: int) -> int {
    if width > max_width {
        (height * max_width + width / 2) / width
    } else {
        height
    }
}

/// Compute the downscaled dimensions for a frame.
pub fn scaled_dims(width: u32, height: u32, max_width: u32) -> (r: (u32, u32))
    requires
        1 <= width,
    ensures
        r.0 == spec_scaled_width(width as int, max_width as int),
        r.1 == spec_scaled_height(width as int, height as int, max_width as int),
        r.0 <= width,
        r.1 <= height,
{
    if width > max_width {
        proof {
            assert((height as int) * (max_width as int) + (width as int) / 2 <= u64::MAX)
                by (nonlinear_arith)
                requires
                    height <= u32::MAX,
                    max_width <= u32::MAX,
                    width <= u32::MAX,
            {
            }
        }
        let num: u64 = (height as u64) * (max_width as u64) + (width as u64) / 2;
        let nh: u64 = num / (width as u64);
        proof {
            let w = width as int;
            let h = height as int;
            let mw = max_width as int;
            assert(h * mw + w / 2 < (h + 1) * w) by (nonlinear_arith)
                requires
                    0 <= h,
                    0 <= mw,
                    mw < w,
            {
            }
            assert((h * mw + w / 2) / w <= h) by (nonlinear_arith)
                requires
                    0 < w,
                    h * mw + w / 2 < (h + 1) * w,
                    0 <= h * mw + w / 2,
            {
            }
        }
        (max_width, nh as u32)
    } else {
        (width, height)
    }
}

/// The RGB bytes left after dropping every fourth (alpha) byte from an RGBA
/// buffer; a trailing group of fewer than four bytes is dropped whole.
pub open spec fn rgb_of(rgba: Seq<u8>) -> Seq<u8> {
    Seq::new((rgba.len() / 4 * 3) as nat, |i: int| rgba[(i / 3) * 4 + (i % 3)])
}

/// Drop the alpha channel: 4 bytes per pixel in, 3 bytes per pixel out,
/// by straight truncation, no blending.
pub fn rgba_to_rgb(rgba: &Vec<u8>) -> (r: Vec<u8>)
    ensures
        r@ == rgb_of(rgba@),
{
    let len = rgba.len();
    let n = len / 4;
    proof {
        vstd::arithmetic::div_mod::lemma_fundamental_div_mod(len as int, 4);
    }
    let mut out: Vec<u8> = Vec::new();
    let mut g: usize = 0;
    while g < n
        invariant
            len == rgba@.len(),
            n == len / 4,
            4 * (n as int) <= len,
            g <= n,
            out@.len() == 3 * g,
            forall|i: int| 0 <= i < out@.len() ==> out@[i] == rgba@[(i / 3) * 4 + (i % 3)],
        decreases n - g,
    {
        proof {
            assert(4 * (g as int) + 2 < 4 * (n as int));
        }
        out.push(rgba[4 * g]);
        out.push(rgba[4 * g + 1]);
        out.push(rgba[4 * g + 2]);
        g = g + 1;
    }
    proof {
        assert(out@ =~= rgb_of(rgba@));
    }
    out
}

/// What `image::imageops::resize` returns with the nearest-neighbor filter:
/// a function of the input pixels and the four dimensions alone.
pub uninterp spec fn nearest_resized(
    pixels: Seq<u8>,
    width: int,
    height: int,
    new_width: int,
    new_height: int,
) -> Seq<u8>;

/// Relies on `image::imageops::resize` with `FilterType::Nearest` (and
/// `RgbaImage::from_raw` / `into_raw` to convert): resampling an RGBA buffer
/// to the requested dimensions yields a buffer of 4 bytes per new pixel,
/// a function of the inputs alone.
#[verifier::external_body]
fn resize_rgba(pixels: &Vec<u8>, width: u32, height: u32, new_width: u32, new_height: u32) -> (r:
    Vec<u8>)
    requires
        pixels@.len() == 4 * width * height,
        1 <= width,
        1 <= height,
        1 <= new_width,
        1 <= new_height,
        4 * new_width * new_height <= usize::MAX,
        16 * width * new_height <= usize::MAX,
    ensures
        r@ == nearest_resized(
            pixels@,
            width as int,
            height as int,
            new_width as int,
            new_height as int,
        ),
        r@.len() == 4 * new_width * new_height,
{
    let img: image::RgbaImage = image::RgbaImage::from_raw(width, height, pixels.clone()).unwrap();
    let resized = image::imageops::resize(
        &img,
        new_width,
        new_height,
        image::imageops::FilterType::Nearest,
    );
    resized.into_raw()
}

/// What `JpegEncoder::encode` writes for an RGB buffer: a function of the
/// pixels, the dimensions and the quality alone.
pub uninterp spec fn jpeg_encoded(rgb: Seq<u8>, width: int, height: int, quality: int) -> Seq<u8>;

/// Relies on `image::codecs::jpeg::JpegEncoder::{new_with_quality, encode}`
/// writing to an in-memory cursor: encoding fails exactly when a dimension is
/// zero or exceeds 65535, and a produced bitstream (a function of pixels,
/// dimensions and quality alone) is never empty.
#[verifier::external_body]
fn jpeg_compress(rgb: &Vec<u8>, width: u32, height: u32, quality: u8) -> (r: Option<Vec<u8>>)
    requires
        rgb@.len() == 3 * width * height,
    ensures
        r is Some <==> (1 <= width <= 65535 && 1 <= height <= 65535),
        r matches Some(v) ==> v@ == jpeg_encoded(
            rgb@,
            width as int,
            height as int,
            quality as int,
        ) && v@.len() > 0,
{
    let mut buf = std::io::Cursor::new(Vec::new());
    let mut encoder = image::codecs::jpeg::JpegEncoder::new_with_quality(&mut buf, quality);
    match encoder.encode(rgb.as_slice(), width, height, image::ExtendedColorType::Rgb8) {
        Ok(()) => Some(buf.into_inner()),
        Err(_) => None,
    }
}

/// What base64's STANDARD engine renders for a byte string: a function of
/// the bytes alone.
pub uninterp spec fn base64_encoded(bytes: Seq<u8>) -> Seq<char>;

/// Whether the padded base64 rendering of `n` bytes fits in memory.
pub open spec fn base64_fits(n: nat) -> bool {
    4 * ((n + 2) / 3) <= usize::MAX
}

/// Relies on `base64::engine::general_purpose::STANDARD` (`Engine::encode`):
/// the padded rendering writes four chars for every started group of three
/// bytes and is a function of the input bytes alone.
#[verifier::external_body]
fn base64_encode(bytes: &Vec<u8>) -> (r: String)
    requires
        base64_fits(bytes@.len()),
    ensures
        r@ == base64_encoded(bytes@),
        r@.len() == 4 * ((bytes@.len() + 2) / 3),
{
    base64::engine::general_purpose::STANDARD.encode(bytes.as_slice())
}

/// An encoded frame or thumbnail: the base64 JPEG text and the dimensions
/// the pixels were compressed at.
pub struct EncodedImage {
    /// Base64 rendering of the JPEG bitstream.
    pub data: String,
    /// Width of the compressed image in pixels.
    pub width: u32,
    /// Height of the compressed image in pixels.
    pub height: u32,
}

/// The pixel buffer handed to compression: downscaled when the frame is
/// wider than `max_width`, otherwise the original.
pub open spec fn spec_scaled_pixels(pixels: Seq<u8>, width: int, height: int, max_width: int) -> Seq<
    u8,
> {
    if width > max_width {
        nearest_resized(
            pixels,
            width,
            height,
            spec_scaled_width(width, max_width),
            spec_scaled_height(width, height, max_width),
        )
    } else {
        pixels
    }
}

/// The JPEG bitstream `encode_frame` produces.
pub open spec fn spec_frame_jpeg(
    pixels: Seq<u8>,
    width: int,
    height: int,
    max_width: int,
    quality: int,
) -> Seq<u8> {
    jpeg_encoded(
        rgb_of(spec_scaled_pixels(pixels, width, height, max_width)),
        spec_scaled_width(width, max_width),
        spec_scaled_height(width, height, max_width),
        quality,
    )
}

/// The base64 text `encode_frame` produces.
pub open spec fn spec_frame_data(
    pixels: Seq<u8>,
    width: int,
    height: int,
    max_width: int,
    quality: int,
) -> Seq<char> {
    base64_encoded(spec_frame_jpeg(pixels, width, height, max_width, quality))
}

/// Whether a frame of the given dimensions can be encoded at all: the scaled
/// dimensions must be whole pixels the JPEG format can carry, and the buffers
/// involved must fit in memory.
pub open spec fn spec_can_encode(width: int, height: int, max_width: int) -> bool {
    let sw = spec_scaled_width(width, max_width);
    let sh = spec_scaled_height(width, height, max_width);
    &&& 1 <= sw <= JPEG_MAX_DIM
    &&& 1 <= sh <= JPEG_MAX_DIM
    &&& 4 * sw * sh <= usize::MAX
    &&& (width > max_width ==> 16 * width * sh <= usize::MAX)
}

/// Encode one raw RGBA frame: downscale to at most `max_width` (nearest
/// neighbor, height rounded to keep the aspect ratio), drop alpha, compress
/// as JPEG at `quality`, render as base64. Fails exactly when the scaled
/// dimensions cannot be compressed or the result would not fit in memory.
pub fn encode_frame(pixels: &Vec<u8>, width: u32, height: u32, max_width: u32, quality: u8) -> (r:
    Result<EncodedImage, Error>)
    requires
        pixels@.len() == 4 * width * height,
        1 <= width,
        1 <= max_width,
    ensures
        r is Ok <==> spec_can_encode(width as int, height as int, max_width as int)
            && base64_fits(
            spec_frame_jpeg(
                pixels@,
                width as int,
                height as int,
                max_width as int,
                quality as int,
            ).len(),
        ),
        r matches Ok(e) ==> {
            &&& e.width == spec_scaled_width(width as int, max_width as int)
            &&& e.height == spec_scaled_height(width as int, height as int, max_width as int)
            &&& e.data@ == spec_frame_data(
                pixels@,
                width as int,
                height as int,
                max_width as int,
                quality as int,
            )
            &&& e.data@.len() > 0
        },
        r matches Err(e) ==> e is EncodingFailed,
{
    let (sw, sh) = scaled_dims(width, height, max_width);
    if sw < 1 || sw > JPEG_MAX_DIM || sh < 1 || sh > JPEG_MAX_DIM {
        return Err(Error::EncodingFailed);
    }
    proof {
        assert(4 * (sw as int) * (sh as int) <= u64::MAX) by (nonlinear_arith)
            requires
                sw <= 65535,
                sh <= 65535,
        {
        }
        assert(16 * (width as int) * (sh as int) <= u64::MAX) by (nonlinear_arith)
            requires
                width <= u32::MAX,
                sh <= 65535,
        {
        }
    }
    if 4u64 * (sw as u64) * (sh as u64) > (usize::MAX as u64) {
        return Err(Error::EncodingFailed);
    }
    let rgb: Vec<u8> = if width > max_width {
        if 16u64 * (width as u64) * (sh as u64) > (usize::MAX as u64) {
            return Err(Error::EncodingFailed);
        }
        let scaled = resize_rgba(pixels, width, height, sw, sh);
        rgba_to_rgb(&scaled)
    } else {
        rgba_to_rgb(pixels)
    };
    proof {
        assert(rgb@ =~= rgb_of(
            spec_scaled_pixels(pixels@, width as int, height as int, max_width as int),
        ));
        let sp = spec_scaled_pixels(pixels@, width as int, height as int, max_width as int);
        assert(sp.len() == 4 * (sw as int) * (sh as int));
        assert(sp.len() / 4 * 3 == 3 * (sw as int) * (sh as int)) by (nonlinear_arith)
            requires
                sp.len() == 4 * (sw as int) * (sh as int),
                0 <= sw,
                0 <= sh,
        {
        }
        assert(rgb@.len() == 3 * (sw as int) * (sh as int));
    }
    match jpeg_compress(&rgb, sw, sh, quality) {
        Some(jpeg) => {
            if jpeg.len() > usize::MAX / 4 * 3 {
                return Err(Error::EncodingFailed);
            }
            let data = base64_encode(&jpeg);
            Ok(EncodedImage { data, width: sw, height: sh })
        },
        None => Err(Error::EncodingFailed),
    }
}

/// Encode a registry thumbnail: the live-frame pipeline at thumbnail width
/// and quality.
pub fn encode_thumbnail(pixels: &Vec<u8>, width: u32, height: u32) -> (r: Result<
    EncodedImage,
    Error,
>)
    requires
        pixels@.len() == 4 * width * height,
        1 <= width,
    ensures
        r is Ok <==> spec_can_encode(width as int, height as int, THUMBNAIL_MAX_WIDTH as int)
            && base64_fits(
            spec_frame_jpeg(
                pixels@,
                width as int,
                height as int,
                THUMBNAIL_MAX_WIDTH as int,
                THUMBNAIL_JPEG_QUALITY as int,
            ).len(),
        ),
        r matches Ok(e) ==> {
            &&& e.width == spec_scaled_width(width as int, THUMBNAIL_MAX_WIDTH as int)
            &&& e.height == spec_scaled_height(
                width as int,
                height as int,
                THUMBNAIL_MAX_WIDTH as int,
            )
            &&& e.data@ == spec_frame_data(
                pixels@,
                width as int,
                height as int,
                THUMBNAIL_MAX_WIDTH as int,
                THUMBNAIL_JPEG_QUALITY as int,
            )
            &&& e.data@.len() > 0
        },
        r matches Err(e) ==> e is EncodingFailed,
{
    encode_frame(pixels, width, height, THUMBNAIL_MAX_WIDTH, THUMBNAIL_JPEG_QUALITY)
}

} // verus!

