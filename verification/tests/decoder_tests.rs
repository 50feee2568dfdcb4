use image::ImageEncoder;
use imvic::decoder::formats::svg::{svg_can_decode, svg_decoder_name, svg_match_score};
use imvic::decoder::formats::raster::{raster_result, RasterDecodeError};
use imvic::decoder::formats::RasterDecoder;
use imvic::decoder::registry::{best_decoder, fallback_step, rank_candidates, FallbackAction};
use imvic::decoder::DecodeMatch;
use imvic::decoder::DecodeMatch::{ExtensionOnly, MagicBytes, NoMatch};

const SAMPLE_SVG: &[u8] = br#"<svg xmlns="http://www.w3.org/2000/svg" viewBox="0 0 100 100">
            <rect width="100" height="100" fill="red"/>
        </svg>"#;

#[test]
fn test_raster_magic_detection() {
    let decoder = RasterDecoder::new();
    let png_header: &[u8] = b"\x89PNG\r\n\x1a\n\x00\x00\x00\rIHDR";
    assert!(decoder.can_decode(Some("unknown"), png_header));

    let jpeg_header: &[u8] = b"\xff\xd8\xff\xe0\x00\x10JFIF";
    assert!(decoder.can_decode(Some("unknown"), jpeg_header));

    let text_file: &[u8] = b"Hello, World!";
    assert!(!decoder.can_decode(Some("txt"), text_file));
}

#[test]
fn test_svg_detection() {
    // Standard extension
    assert!(svg_can_decode(Some("svg"), SAMPLE_SVG));

    // Unknown extension with pure <svg> header
    assert!(svg_can_decode(Some("unknown"), SAMPLE_SVG));

    // SVG with XML prologue
    let xml_svg: &[u8] =
        b"<?xml version=\"1.0\" encoding=\"UTF-8\"?>\n<svg width=\"100\" height=\"100\"></svg>";
    assert!(svg_can_decode(Some("unknown"), xml_svg));

    // Generic XML without <svg> tag must be rejected!
    let generic_xml: &[u8] =
        b"<?xml version=\"1.0\" encoding=\"UTF-8\"?>\n<feed><title>RSS</title></feed>";
    assert!(!svg_can_decode(Some("unknown"), generic_xml));
}

#[test]
fn raster_extensions_and_signatures() {
    let d = RasterDecoder::new();
    for ext in ["png", "JPG", "jpeg", "WebP", "gif", "bmp"] {
        assert!(d.can_decode(Some(ext), b""), "{ext}");
    }
    assert!(!d.can_decode(Some("tiff"), b""));
    assert!(!d.can_decode(None, b""));
    assert!(d.can_decode(None, b"GIF89a\x01\x00\x01\x00"));
    assert!(d.can_decode(None, b"GIF87a\x01\x00\x01\x00"));
    assert!(d.can_decode(None, b"BM\x00\x00\x00\x00\x00\x00"));
    assert!(d.can_decode(None, b"RIFF\x00\x00\x00\x00WEBPVP8 "));
    assert!(!d.can_decode(None, b"RIFF\x00\x00\x00\x00WAVEfmt "));
    // Headers shorter than 8 bytes are not sniffed.
    assert!(!d.can_decode(None, b"BM\x00"));
    assert_eq!(d.name(), "Static Raster Image Decoder (PNG, JPEG, WebP, GIF, BMP)");
}

#[test]
fn svg_extension_and_doctype() {
    assert!(svg_can_decode(Some("SVG"), b""));
    assert!(svg_can_decode(None, b"<!DOCTYPE svg PUBLIC>"));
    assert!(svg_can_decode(None, b"<SVG>"));
    assert!(!svg_can_decode(None, b"<sv"));
    assert_eq!(svg_decoder_name(), "SVG Vector Decoder");
}

#[test]
fn match_scores() {
    let d = RasterDecoder::new();
    let png: &[u8] = b"\x89PNG\r\n\x1a\n\x00\x00\x00\rIHDR";
    assert_eq!(d.match_score(Some("svg"), png), DecodeMatch::MagicBytes);
    assert_eq!(d.match_score(Some("png"), b"<svg></svg>"), DecodeMatch::ExtensionOnly);
    assert_eq!(d.match_score(Some("xyz"), b"text"), DecodeMatch::NoMatch);
    assert_eq!(svg_match_score(Some("png"), b"<svg></svg>"), DecodeMatch::MagicBytes);
    assert_eq!(svg_match_score(Some("svg"), png), DecodeMatch::ExtensionOnly);
    assert_eq!(svg_match_score(Some("xyz"), b"unsupported raw content"), DecodeMatch::NoMatch);
}

#[test]
fn candidates_are_tried_by_confidence() {
    // An SVG file named .png: the SVG plugin (magic) goes first, the raster plugin second.
    assert_eq!(rank_candidates(&[MagicBytes, ExtensionOnly]), vec![0, 1]);
    // A PNG file named .svg.
    assert_eq!(rank_candidates(&[ExtensionOnly, MagicBytes]), vec![1, 0]);
    assert_eq!(rank_candidates(&[NoMatch, NoMatch]), Vec::<usize>::new());
    // Stable among equals.
    assert_eq!(
        rank_candidates(&[ExtensionOnly, MagicBytes, NoMatch, ExtensionOnly, MagicBytes]),
        vec![1, 4, 0, 3]
    );
}

#[test]
fn find_decoder_picks_the_last_best() {
    assert_eq!(best_decoder(&[MagicBytes, ExtensionOnly]), Some(0));
    assert_eq!(best_decoder(&[ExtensionOnly, ExtensionOnly]), Some(1));
    assert_eq!(best_decoder(&[MagicBytes, NoMatch, MagicBytes]), Some(2));
    assert_eq!(best_decoder(&[NoMatch, NoMatch]), None);
    assert_eq!(best_decoder(&[]), None);
}

/// Scores of the two built-in decoders, in registration order (SVG, then raster), for a file
/// with the given extension and header.
fn builtin_scores(extension: Option<&str>, header: &[u8]) -> [DecodeMatch; 2] {
    [svg_match_score(extension, header), RasterDecoder::new().match_score(extension, header)]
}

#[test]
fn svg_file_is_picked_by_its_score() {
    let scores = builtin_scores(Some("svg"), b"<svg></svg>");
    assert_eq!(best_decoder(&scores), Some(0));
    assert_eq!(svg_decoder_name(), "SVG Vector Decoder");
}

#[test]
fn unrecognised_file_has_no_decoder_candidate() {
    let scores = builtin_scores(Some("xyz"), b"unsupported raw content");
    assert_eq!(best_decoder(&scores), None);
    assert!(rank_candidates(&scores).is_empty());
}

#[test]
fn svg_named_as_png_ranks_the_svg_decoder_first() {
    let scores = builtin_scores(
        Some("png"),
        b"<svg xmlns=\"http://www.w3.org/2000/svg\" width=\"100\" height=\"100\"></svg>",
    );
    // The SVG decoder (magic bytes) is tried first, the raster decoder (extension) after it.
    assert_eq!(rank_candidates(&scores), vec![0, 1]);
}

#[test]
fn png_named_as_svg_is_ranked_and_decoded_as_raster() {
    let png_1x1: [u8; 67] = [
        0x89, 0x50, 0x4E, 0x47, 0x0D, 0x0A, 0x1A, 0x0A, 0x00, 0x00, 0x00, 0x0D, 0x49, 0x48,
        0x44, 0x52, 0x00, 0x00, 0x00, 0x01, 0x00, 0x00, 0x00, 0x01, 0x08, 0x06, 0x00, 0x00,
        0x00, 0x1F, 0x15, 0xC4, 0x89, 0x00, 0x00, 0x00, 0x0A, 0x49, 0x44, 0x41, 0x54, 0x78,
        0x9C, 0x63, 0x00, 0x01, 0x00, 0x00, 0x05, 0x00, 0x01, 0x0D, 0x0A, 0x2D, 0xB4, 0x00,
        0x00, 0x00, 0x00, 0x49, 0x45, 0x4E, 0x44, 0xAE, 0x42, 0x60, 0x82,
    ];
    let scores = builtin_scores(Some("svg"), &png_1x1);
    // The raster decoder (magic bytes) is tried first, the SVG decoder (extension) after it.
    let candidates = rank_candidates(&scores);
    assert_eq!(candidates, vec![1, 0]);
    assert_eq!(fallback_step(&candidates, None, false), FallbackAction::Try(1));
    // The raster decoder succeeds, so the cascade stops there.
    let img = RasterDecoder::new().decode(&png_1x1).ok().unwrap();
    assert_eq!((img.width, img.height), (1, 1));
    assert_eq!(fallback_step(&candidates, Some(0), true), FallbackAction::UseResult);
}

#[test]
fn raster_decode_reads_pixels_from_bytes() {
    // A 2x1 PNG made with the image crate's own encoder.
    let mut png = Vec::new();
    {
        let enc = image::codecs::png::PngEncoder::new(&mut png);
        enc.write_image(&[1, 2, 3, 4, 5, 6, 7, 8], 2, 1, image::ExtendedColorType::Rgba8)
            .unwrap();
    }
    let img = RasterDecoder::new().decode(&png).ok().unwrap();
    assert_eq!((img.frame.width(), img.frame.height()), (2, 1));
    assert_eq!((img.width, img.height), (2, 1));
    assert_eq!(img.frame.into_pixels(), vec![1, 2, 3, 4, 5, 6, 7, 8]);

    assert!(matches!(
        RasterDecoder::new().decode(b"unsupported raw content"),
        Err(imvic::decoder::formats::raster::RasterDecodeError::Decode(_))
    ));
}

#[test]
fn decode_cascade_tries_candidates_in_rank_order() {
    let c = [1usize, 0];
    assert_eq!(fallback_step(&c, None, false), FallbackAction::Try(1));
    assert_eq!(fallback_step(&c, Some(0), false), FallbackAction::Try(0));
    assert_eq!(fallback_step(&c, Some(1), false), FallbackAction::ReportLastError);
    assert_eq!(fallback_step(&c, Some(0), true), FallbackAction::UseResult);
    assert_eq!(fallback_step(&[], None, false), FallbackAction::Unsupported);
}

#[test]
fn raster_result_for_each_decoder_outcome() {
    let img = raster_result(Ok((2, 1, vec![9; 8]))).ok().unwrap();
    assert_eq!((img.frame.width(), img.frame.height(), img.width, img.height), (2, 1, 2, 1));
    assert_eq!(img.frame.into_pixels(), vec![9; 8]);
    let empty = raster_result(Ok((0, 3, vec![]))).ok().unwrap();
    assert_eq!((empty.width, empty.height), (1, 3));
    assert!(matches!(raster_result(Ok((2, 1, vec![9; 9]))), Err(RasterDecodeError::Size)));
    let err = image::ImageError::IoError(std::io::Error::other("x"));
    assert!(matches!(raster_result(Err(err)), Err(RasterDecodeError::Decode(_))));
}
