//! SVG format detection.

use super::super::{extension_is, score, DecodeMatch};
use crate::text::{contains_ignore_ascii_case, contains_ignore_case, equals_ignore_case, utf8};
use vstd::prelude::*;

verus! {

/// The header holds an `<svg` tag or a `<!doctype svg` declaration, in any ASCII case.
pub open spec fn svg_magic(header: Seq<u8>) -> bool {
    contains_ignore_ascii_case(header, utf8("<svg"@)) || contains_ignore_ascii_case(
        header,
        utf8("<!doctype svg"@),
    )
}

/// The extension is `svg` in any ASCII case.
pub open spec fn svg_extension(extension: Option<&str>) -> bool {
    extension_is(extension, "svg"@)
}

/// Human-readable name of the SVG plugin.
pub fn svg_decoder_name() -> (r: &'static str)
    ensures
        r@ == "SVG Vector Decoder"@,
{
    "SVG Vector Decoder"
}

/// Whether the extension is `svg`.
pub fn has_svg_extension(extension: Option<&str>) -> (r: bool)
    ensures
        r == svg_extension(extension),
{
    match extension {
        Some(e) => equals_ignore_case(e.as_bytes(), "svg".as_bytes()),
        None => false,
    }
}

/// Header sniffing: whether the header holds `<svg` or `<!doctype svg`.
pub fn has_svg_magic(header: &[u8]) -> (r: bool)
    ensures
        r == svg_magic(header@),
{
    contains_ignore_case(header, "<svg".as_bytes()) || contains_ignore_case(
        header,
        "<!doctype svg".as_bytes(),
    )
}

/// Whether the SVG plugin can decode a file with this extension and header.
pub fn svg_can_decode(extension: Option<&str>, header: &[u8]) -> (r: bool)
    ensures
        r == (svg_extension(extension) || svg_magic(header@)),
{
    let has_svg_extension = has_svg_extension(extension);
    let has_svg_magic = has_svg_magic(header);
    has_svg_extension || has_svg_magic
}

/// Confidence that the SVG plugin decodes the file.
pub fn svg_match_score(extension: Option<&str>, header: &[u8]) -> (r: DecodeMatch)
    ensures
        r == score(svg_magic(header@), svg_extension(extension)),
{
    if has_svg_magic(header) {
        DecodeMatch::MagicBytes
    } else if has_svg_extension(extension) {
        DecodeMatch::ExtensionOnly
    } else {
        DecodeMatch::NoMatch
    }
}

} // verus!
