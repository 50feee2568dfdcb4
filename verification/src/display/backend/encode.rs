//! The two encoders a frame passes through on its way to the terminal: PNG compression
//! (the `image` crate) and standard Base64 (the `base64` crate).

use base64::Engine;
use image::codecs::png::{CompressionType, FilterType, PngEncoder};
use image::{ExtendedColorType, ImageEncoder, ImageError};
use vstd::prelude::*;

verus! {

/// `image::ImageError`, carried through when PNG encoding fails.
#[verifier::external_type_specification]
#[verifier::external_body]
pub struct ExImageError(ImageError);

/// The PNG file that `image`'s `PngEncoder`, set to fast compression without filtering,
/// writes for an RGBA8 image of the given size; `None` where the encoder reports an error.
pub uninterp spec fn png_fast_rgba8(width: u32, height: u32, pixels: Seq<u8>) -> Option<Seq<u8>>;

/// The Base64 digit for a 6-bit value: `A-Z`, `a-z`, `0-9`, `+`, `/`.
pub open spec fn base64_digit(v: int) -> u8 {
    if v < 26 {
        (65 + v) as u8
    } else if v < 52 {
        (97 + v - 26) as u8
    } else if v < 62 {
        (48 + v - 52) as u8
    } else if v == 62 {
        43
    } else {
        47
    }
}

/// The padding byte `=`.
pub open spec fn base64_pad() -> u8 {
    61
}

/// Standard Base64 (RFC 4648, alphabet `A-Z a-z 0-9 + /`, `=` padding) of `data`: every
/// group of three bytes, as 24 bits, gives four digits of six bits each; a final group of one
/// or two bytes is zero-filled and padded with `=` to four characters.
pub open spec fn standard_base64(data: Seq<u8>) -> Seq<u8>
    decreases data.len(),
{
    if data.len() == 0 {
        Seq::empty()
    } else if data.len() == 1 {
        let a = data[0] as int;
        seq![base64_digit(a / 4), base64_digit((a % 4) * 16), base64_pad(), base64_pad()]
    } else if data.len() == 2 {
        let a = data[0] as int;
        let b = data[1] as int;
        seq![
            base64_digit(a / 4),
            base64_digit((a % 4) * 16 + b / 16),
            base64_digit((b % 16) * 4),
            base64_pad(),
        ]
    } else {
        let a = data[0] as int;
        let b = data[1] as int;
        let c = data[2] as int;
        seq![
            base64_digit(a / 4),
            base64_digit((a % 4) * 16 + b / 16),
            base64_digit((b % 16) * 4 + c / 64),
            base64_digit(c % 64),
        ] + standard_base64(data.skip(3))
    }
}

/// A byte of the standard Base64 alphabet or its padding.
pub open spec fn is_base64_byte(b: u8) -> bool {
    (65 <= b <= 90) || (97 <= b <= 122) || (48 <= b <= 57) || b == 43 || b == 47 || b == 61
}

/// Appends the PNG encoding of an RGBA8 image to `buf`, through
/// `PngEncoder::new_with_quality(.., CompressionType::Fast, FilterType::NoFilter)` and
/// `ImageEncoder::write_image(.., ExtendedColorType::Rgba8)`.
///
/// The contract claims that on success the appended bytes are [`png_fast_rgba8`] of the
/// arguments, and that an error happens exactly where that name is `None` (the encoder is a
/// function of its input; writing into a `Vec` cannot fail). The `png` crate's writer
/// refuses only a zero width or height here (`Writer::init`; the colour type and buffer size
/// are valid by construction), so encoding succeeds for any image of positive size. What
/// `buf` holds after an error is left unsaid. `write_image` asserts that the buffer holds
/// `width * height * 4` bytes, hence the `requires`.
#[verifier::external_body]
pub(crate) fn encode_png_into(buf: &mut Vec<u8>, width: u32, height: u32, pixels: &[u8]) -> (r:
    Result<(), ImageError>)
    requires
        pixels@.len() == width * height * 4,
    ensures
        match r {
            Ok(()) => png_fast_rgba8(width, height, pixels@) matches Some(png) && final(buf)@
                == old(buf)@ + png,
            Err(_) => png_fast_rgba8(width, height, pixels@) is None,
        },
        width > 0 && height > 0 ==> r is Ok,
{
    let encoder = PngEncoder::new_with_quality(buf, CompressionType::Fast, FilterType::NoFilter);
    encoder.write_image(pixels, width, height, ExtendedColorType::Rgba8)
}

/// Encodes `input` with the `base64` crate's `STANDARD` engine (`Engine::encode_string`).
///
/// The contract claims the result is [`standard_base64`] of the input: `STANDARD` is the
/// RFC 4648 alphabet with padding, as the crate documents. The `String` that
/// `encode_string` grows would overflow its capacity only past `isize::MAX` bytes; that bound
/// is not stated.
#[verifier::external_body]
pub(crate) fn encode_base64(input: &[u8]) -> (r: Vec<u8>)
    ensures
        r@ == standard_base64(input@),
{
    let mut s = String::new();
    base64::engine::general_purpose::STANDARD.encode_string(input, &mut s);
    s.into_bytes()
}

/// Base64 text is `4 * ceil(n / 3)` bytes long for `n` input bytes, and every byte of it is a
/// Base64 digit or padding.
pub proof fn law_base64_shape(data: Seq<u8>)
    ensures
        standard_base64(data).len() == 4 * ((data.len() + 2) / 3),
        forall|i: int|
            0 <= i < standard_base64(data).len() ==> is_base64_byte(
                #[trigger] standard_base64(data)[i],
            ),
    decreases data.len(),
{
    if data.len() >= 3 {
        let rest = data.skip(3);
        law_base64_shape(rest);
        let a = data[0] as int;
        let b = data[1] as int;
        let c = data[2] as int;
        let head = seq![
            base64_digit(a / 4),
            base64_digit((a % 4) * 16 + b / 16),
            base64_digit((b % 16) * 4 + c / 64),
            base64_digit(c % 64),
        ];
        assert(standard_base64(data) == head + standard_base64(rest));
        assert forall|i: int| 0 <= i < standard_base64(data).len() implies is_base64_byte(
            #[trigger] standard_base64(data)[i],
        ) by {
            if i >= 4 {
                assert(standard_base64(data)[i] == standard_base64(rest)[i - 4]);
            }
        }
    }
}

} // verus!
