//! Raster/Bitmap static image format detection (PNG, JPEG, WebP, GIF, BMP).

use super::super::{extension_is, has_prefix, score, starts_with, DecodeMatch};
use crate::display::backend::kitty::Frame;
use crate::text::equals_ignore_case;
use image::ImageError;
use vstd::prelude::*;

verus! {

/// PNG signature: `89 50 4E 47 0D 0A 1A 0A`.
pub open spec fn png_signature() -> Seq<u8> {
    seq![0x89u8, 0x50, 0x4E, 0x47, 0x0D, 0x0A, 0x1A, 0x0A]
}

/// JPEG signature: `FF D8 FF`.
pub open spec fn jpeg_signature() -> Seq<u8> {
    seq![0xFFu8, 0xD8, 0xFF]
}

/// GIF signatures: `GIF87a` and `GIF89a`.
pub open spec fn gif87_signature() -> Seq<u8> {
    seq![0x47u8, 0x49, 0x46, 0x38, 0x37, 0x61]
}

pub open spec fn gif89_signature() -> Seq<u8> {
    seq![0x47u8, 0x49, 0x46, 0x38, 0x39, 0x61]
}

/// BMP signature: `BM`.
pub open spec fn bmp_signature() -> Seq<u8> {
    seq![0x42u8, 0x4D]
}

/// WebP container: `RIFF`, four size bytes, then `WEBP`.
pub open spec fn riff_signature() -> Seq<u8> {
    seq![0x52u8, 0x49, 0x46, 0x46]
}

pub open spec fn webp_tag() -> Seq<u8> {
    seq![0x57u8, 0x45, 0x42, 0x50]
}

/// The header shows a raster format's magic bytes (only headers of at least 8 bytes are
/// inspected).
pub open spec fn raster_magic(h: Seq<u8>) -> bool {
    h.len() >= 8 && (starts_with(h, png_signature()) || starts_with(h, jpeg_signature())
        || starts_with(h, gif87_signature()) || starts_with(h, gif89_signature()) || starts_with(
        h,
        bmp_signature(),
    ) || (starts_with(h, riff_signature()) && h.len() >= 12 && h.subrange(8, 12) == webp_tag()))
}

/// The extension is one of `png`, `jpg`, `jpeg`, `webp`, `gif`, `bmp`, in any ASCII case.
pub open spec fn raster_extension(extension: Option<&str>) -> bool {
    extension_is(extension, "png"@) || extension_is(extension, "jpg"@) || extension_is(
        extension,
        "jpeg"@,
    ) || extension_is(extension, "webp"@) || extension_is(extension, "gif"@) || extension_is(
        extension,
        "bmp"@,
    )
}

/// Decodes `data` with `image::ImageReader::new(Cursor::new(data)).with_guessed_format()`,
/// `ImageReader::decode` and `DynamicImage::to_rgba8`, and hands out width, height and
/// `ImageBuffer::into_raw`.
///
/// Nothing is claimed of the result: the format guess and the decoder consult the `image`
/// crate's process-wide format and decoding hooks, which any code in the process may
/// register, so the same bytes need not decode alike; and a decoder may hand out a buffer
/// longer than its size needs.
#[verifier::external_body]
fn decode_rgba8(data: &[u8]) -> (r: Result<(u32, u32, Vec<u8>), ImageError>) {
    let reader = image::ImageReader::new(std::io::Cursor::new(data))
        .with_guessed_format()
        .map_err(ImageError::IoError)?;
    let rgba = reader.decode()?.to_rgba8();
    Ok((rgba.width(), rgba.height(), rgba.into_raw()))
}

/// A decoded raster image: its RGBA pixels and the dimensions the camera works with, at
/// least one pixel each way.
pub struct RasterImage {
    pub frame: Frame,
    pub width: u32,
    pub height: u32,
}

impl RasterImage {
    /// The image for decoded RGBA bytes of the given size, if their number matches the size.
    pub fn from_decoded(width: u32, height: u32, pixels: Vec<u8>) -> (r: Option<RasterImage>)
        ensures
            r is Some <==> pixels@.len() == width * height * 4,
            r matches Some(img) ==> img.frame.spec_width() == width && img.frame.spec_height()
                == height && img.frame.spec_pixels() == pixels@ && img.width == at_least_one(width)
                && img.height == at_least_one(height),
    {
        match Frame::from_raw(width, height, pixels) {
            None => None,
            Some(frame) => {
                let w = if width == 0 {
                    1
                } else {
                    width
                };
                let h = if height == 0 {
                    1
                } else {
                    height
                };
                Some(RasterImage { frame, width: w, height: h })
            },
        }
    }
}

/// Why a raster file could not be decoded.
#[derive(Debug)]
pub enum RasterDecodeError {
    /// The `image` crate could not decode the bytes.
    Decode(ImageError),
    /// The decoded pixel bytes do not match the decoded size.
    Size,
}

/// What decoding gives for an outcome of the `image` crate: its error as `Decode`; decoded
/// RGBA bytes of a matching length as the image; bytes of another length as `Size`.
pub fn raster_result(decoded: Result<(u32, u32, Vec<u8>), ImageError>) -> (r: Result<
    RasterImage,
    RasterDecodeError,
>)
    ensures
        match decoded {
            Err(_) => r matches Err(RasterDecodeError::Decode(_)),
            Ok((w, h, px)) => if px@.len() == w * h * 4 {
                r matches Ok(img) && img.frame.spec_width() == w && img.frame.spec_height() == h
                    && img.frame.spec_pixels() == px@ && img.width == at_least_one(w) && img.height
                    == at_least_one(h)
            } else {
                r matches Err(RasterDecodeError::Size)
            },
        },
{
    match decoded {
        Err(e) => Err(RasterDecodeError::Decode(e)),
        Ok((w, h, px)) => match RasterImage::from_decoded(w, h, px) {
            None => Err(RasterDecodeError::Size),
            Some(img) => Ok(img),
        },
    }
}

/// `n`, or 1 where `n` is 0.
pub open spec fn at_least_one(n: u32) -> u32 {
    if n == 0 {
        1
    } else {
        n
    }
}

/// Decoder plugin for common static raster image formats.
pub struct RasterDecoder;

impl RasterDecoder {
    pub fn new() -> (r: Self) {
        RasterDecoder
    }

    /// Human-readable plugin name.
    pub fn name(&self) -> (r: &'static str)
        ensures
            r@ == "Static Raster Image Decoder (PNG, JPEG, WebP, GIF, BMP)"@,
    {
        "Static Raster Image Decoder (PNG, JPEG, WebP, GIF, BMP)"
    }

    /// Whether the extension names a raster format.
    pub fn has_raster_extension(extension: Option<&str>) -> (r: bool)
        ensures
            r == raster_extension(extension),
    {
        match extension {
            Some(e) => {
                let b = e.as_bytes();
                equals_ignore_case(b, "png".as_bytes()) || equals_ignore_case(b, "jpg".as_bytes())
                    || equals_ignore_case(b, "jpeg".as_bytes()) || equals_ignore_case(
                    b,
                    "webp".as_bytes(),
                ) || equals_ignore_case(b, "gif".as_bytes()) || equals_ignore_case(
                    b,
                    "bmp".as_bytes(),
                )
            },
            None => false,
        }
    }

    /// Whether the header carries raster magic bytes.
    pub fn has_raster_magic(header: &[u8]) -> (r: bool)
        ensures
            r == raster_magic(header@),
    {
        if header.len() < 8 {
            return false;
        }
        let png = [0x89u8, 0x50, 0x4E, 0x47, 0x0D, 0x0A, 0x1A, 0x0A];
        let jpeg = [0xFFu8, 0xD8, 0xFF];
        let gif87 = [0x47u8, 0x49, 0x46, 0x38, 0x37, 0x61];
        let gif89 = [0x47u8, 0x49, 0x46, 0x38, 0x39, 0x61];
        let bmp = [0x42u8, 0x4D];
        let riff = [0x52u8, 0x49, 0x46, 0x46];
        assert(png@ =~= png_signature());
        assert(jpeg@ =~= jpeg_signature());
        assert(gif87@ =~= gif87_signature());
        assert(gif89@ =~= gif89_signature());
        assert(bmp@ =~= bmp_signature());
        assert(riff@ =~= riff_signature());
        if has_prefix(header, &png) || has_prefix(header, &jpeg) || has_prefix(header, &gif87)
            || has_prefix(header, &gif89) || has_prefix(header, &bmp) {
            return true;
        }
        if has_prefix(header, &riff) && header.len() >= 12 {
            let is_webp = header[8] == 0x57 && header[9] == 0x45 && header[10] == 0x42
                && header[11] == 0x50;
            assert(is_webp == (header@.subrange(8, 12) =~= webp_tag()));
            return is_webp;
        }
        false
    }

    /// Inspects the file extension and header bytes to determine if this plugin can decode
    /// the file: a raster extension, or raster magic bytes.
    pub fn can_decode(&self, extension: Option<&str>, header: &[u8]) -> (r: bool)
        ensures
            r == (raster_extension(extension) || raster_magic(header@)),
    {
        // 1. Check file extensions
        if Self::has_raster_extension(extension) {
            return true;
        }
        // 2. Check magic bytes
        Self::has_raster_magic(header)
    }

    /// Confidence that this plugin decodes the file.
    pub fn match_score(&self, extension: Option<&str>, header: &[u8]) -> (r: DecodeMatch)
        ensures
            r == score(raster_magic(header@), raster_extension(extension)),
    {
        if Self::has_raster_magic(header) {
            DecodeMatch::MagicBytes
        } else if Self::has_raster_extension(extension) {
            DecodeMatch::ExtensionOnly
        } else {
            DecodeMatch::NoMatch
        }
    }

    /// Decodes the bytes of a raster file into an in-memory RGBA image whose camera
    /// dimensions are at least one pixel each way.
    ///
    /// What the `image` crate decodes is not a function of the bytes alone (see
    /// `decode_rgba8`); [`raster_result`] states what comes back for each outcome.
    pub fn decode(&self, data: &[u8]) -> (r: Result<RasterImage, RasterDecodeError>)
        ensures
            r matches Ok(img) ==> img.width == at_least_one(img.frame.spec_width()) && img.height
                == at_least_one(img.frame.spec_height()),
    {
        raster_result(decode_rgba8(data))
    }
}

/// Raster magic, byte by byte: a header of at least 8 bytes that starts as a PNG
/// (`89 50 4E 47 0D 0A 1A 0A`), a JPEG (`FF D8 FF`, whatever marker follows: JFIF, EXIF, ...),
/// a GIF (`GIF87a` or `GIF89a`), a BMP (`BM`) or a WebP (`RIFF`, four size bytes, `WEBP`);
/// nothing shorter than 8 bytes.
pub proof fn law_raster_magic_bytes(h: Seq<u8>)
    ensures
        raster_magic(h) <==> h.len() >= 8 && ({
            ||| (h[0] == 0x89 && h[1] == 0x50 && h[2] == 0x4E && h[3] == 0x47 && h[4] == 0x0D
                && h[5] == 0x0A && h[6] == 0x1A && h[7] == 0x0A)
            ||| (h[0] == 0xFF && h[1] == 0xD8 && h[2] == 0xFF)
            ||| (h[0] == 0x47 && h[1] == 0x49 && h[2] == 0x46 && h[3] == 0x38 && (h[4] == 0x37
                || h[4] == 0x39) && h[5] == 0x61)
            ||| (h[0] == 0x42 && h[1] == 0x4D)
            ||| (h[0] == 0x52 && h[1] == 0x49 && h[2] == 0x46 && h[3] == 0x46 && h.len() >= 12
                && h[8] == 0x57 && h[9] == 0x45 && h[10] == 0x42 && h[11] == 0x50)
        }),
{
    if h.len() >= 8 {
        let png_ok = h[0] == 0x89 && h[1] == 0x50 && h[2] == 0x4E && h[3] == 0x47 && h[4] == 0x0D
            && h[5] == 0x0A && h[6] == 0x1A && h[7] == 0x0A;
        assert(starts_with(h, png_signature()) <==> png_ok) by {
            if png_ok {
                assert(h.take(8) =~= png_signature());
            }
            if starts_with(h, png_signature()) {
                assert(h.take(8)[0] == h[0] && h.take(8)[7] == h[7]);
            }
        }
        assert(starts_with(h, jpeg_signature()) <==> (h[0] == 0xFF && h[1] == 0xD8 && h[2]
            == 0xFF)) by {
            if h[0] == 0xFF && h[1] == 0xD8 && h[2] == 0xFF {
                assert(h.take(3) =~= jpeg_signature());
            }
            if starts_with(h, jpeg_signature()) {
                assert(h.take(3)[0] == h[0]);
            }
        }
        assert(starts_with(h, gif87_signature()) <==> (h[0] == 0x47 && h[1] == 0x49 && h[2]
            == 0x46 && h[3] == 0x38 && h[4] == 0x37 && h[5] == 0x61)) by {
            if h[0] == 0x47 && h[1] == 0x49 && h[2] == 0x46 && h[3] == 0x38 && h[4] == 0x37 && h[5]
                == 0x61 {
                assert(h.take(6) =~= gif87_signature());
            }
            if starts_with(h, gif87_signature()) {
                assert(h.take(6)[0] == h[0]);
            }
        }
        assert(starts_with(h, gif89_signature()) <==> (h[0] == 0x47 && h[1] == 0x49 && h[2]
            == 0x46 && h[3] == 0x38 && h[4] == 0x39 && h[5] == 0x61)) by {
            if h[0] == 0x47 && h[1] == 0x49 && h[2] == 0x46 && h[3] == 0x38 && h[4] == 0x39 && h[5]
                == 0x61 {
                assert(h.take(6) =~= gif89_signature());
            }
            if starts_with(h, gif89_signature()) {
                assert(h.take(6)[0] == h[0]);
            }
        }
        assert(starts_with(h, bmp_signature()) <==> (h[0] == 0x42 && h[1] == 0x4D)) by {
            if h[0] == 0x42 && h[1] == 0x4D {
                assert(h.take(2) =~= bmp_signature());
            }
            if starts_with(h, bmp_signature()) {
                assert(h.take(2)[0] == h[0]);
            }
        }
        assert(starts_with(h, riff_signature()) <==> (h[0] == 0x52 && h[1] == 0x49 && h[2]
            == 0x46 && h[3] == 0x46)) by {
            if h[0] == 0x52 && h[1] == 0x49 && h[2] == 0x46 && h[3] == 0x46 {
                assert(h.take(4) =~= riff_signature());
            }
            if starts_with(h, riff_signature()) {
                assert(h.take(4)[0] == h[0]);
            }
        }
        if h.len() >= 12 {
            assert((h.subrange(8, 12) == webp_tag()) <==> (h[8] == 0x57 && h[9] == 0x45 && h[10]
                == 0x42 && h[11] == 0x50)) by {
                if h[8] == 0x57 && h[9] == 0x45 && h[10] == 0x42 && h[11] == 0x50 {
                    assert(h.subrange(8, 12) =~= webp_tag());
                }
                if h.subrange(8, 12) == webp_tag() {
                    assert(h.subrange(8, 12)[0] == h[8]);
                }
            }
        }
    }
}

} // verus!
