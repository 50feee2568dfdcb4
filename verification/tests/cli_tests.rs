use imvic::cli::{parse_bg_color, parse_fps, DEFAULT_FALLBACK_BG};

#[test]
fn test_parse_bg_color() {
    // No argument -> transparent
    assert_eq!(parse_bg_color(None), None);

    // Missing '#' prefix or invalid -> fallback white
    assert_eq!(parse_bg_color(Some("default")), Some(DEFAULT_FALLBACK_BG));
    assert_eq!(parse_bg_color(Some("white")), Some(DEFAULT_FALLBACK_BG));
    assert_eq!(parse_bg_color(Some("invalid")), Some(DEFAULT_FALLBACK_BG));
    assert_eq!(parse_bg_color(Some("#ggg")), Some(DEFAULT_FALLBACK_BG));
    assert_eq!(parse_bg_color(Some("#12")), Some(DEFAULT_FALLBACK_BG));
    assert_eq!(parse_bg_color(Some("#zzzzzz")), Some(DEFAULT_FALLBACK_BG));

    // #RGB
    assert_eq!(parse_bg_color(Some("#fff")), Some([255, 255, 255, 255]));
    assert_eq!(parse_bg_color(Some("#000")), Some([0, 0, 0, 255]));

    // #RGBA
    assert_eq!(parse_bg_color(Some("#0000")), Some([0, 0, 0, 0]));

    // #RRGGBB
    assert_eq!(parse_bg_color(Some("#1e1e2e")), Some([30, 30, 46, 255]));

    // #RRGGBBAA
    assert_eq!(parse_bg_color(Some("#1e1e2eff")), Some([30, 30, 46, 255]));
    assert_eq!(parse_bg_color(Some("#00000000")), Some([0, 0, 0, 0]));
}

#[test]
fn test_parse_fps_valid() {
    assert_eq!(parse_fps("30"), Ok(30));
    assert_eq!(parse_fps("60"), Ok(60));
    assert_eq!(parse_fps("144"), Ok(144));
    assert_eq!(parse_fps("240"), Ok(240));
}

#[test]
fn test_parse_fps_invalid() {
    assert!(parse_fps("0").is_err());
    assert!(parse_fps("241").is_err());
    assert!(parse_fps("-60").is_err());
    assert!(parse_fps("invalid").is_err());
}

#[test]
fn parse_fps_error_messages_name_the_value() {
    assert_eq!(
        parse_fps("abc"),
        Err("Invalid FPS value 'abc': must be a positive integer".to_string())
    );
    assert_eq!(
        parse_fps("300"),
        Err("Invalid framerate '300': FPS must be between 1 and 240".to_string())
    );
    // Larger than u32 is not a number for the parser.
    assert_eq!(
        parse_fps("4294967296"),
        Err("Invalid FPS value '4294967296': must be a positive integer".to_string())
    );
}

#[test]
fn parse_fps_follows_unsigned_parse_rules() {
    assert_eq!(parse_fps("+60"), Ok(60));
    assert_eq!(parse_fps("1"), Ok(1));
    assert_eq!(parse_fps("0060"), Ok(60));
    assert!(parse_fps("").is_err());
    assert!(parse_fps("+").is_err());
    assert!(parse_fps(" 60").is_err());
    assert!(parse_fps("6 0").is_err());
}

#[test]
fn parse_bg_color_trims_and_accepts_any_case() {
    assert_eq!(parse_bg_color(Some("  #FFF \n")), Some([255, 255, 255, 255]));
    assert_eq!(parse_bg_color(Some("#AbCdEf")), Some([0xab, 0xcd, 0xef, 255]));
    assert_eq!(parse_bg_color(Some("#1e1e2e80")), Some([30, 30, 46, 128]));
    assert_eq!(parse_bg_color(Some("#abc")), parse_bg_color(Some("#aabbcc")));
    assert_eq!(parse_bg_color(Some("")), Some(DEFAULT_FALLBACK_BG));
    assert_eq!(parse_bg_color(Some("#")), Some(DEFAULT_FALLBACK_BG));
    assert_eq!(parse_bg_color(Some("#12345")), Some(DEFAULT_FALLBACK_BG));
}

#[test]
fn parse_bg_color_accepts_only_hex_digits() {
    // A sign is not a hex digit.
    assert_eq!(parse_bg_color(Some("#+f0000")), Some(DEFAULT_FALLBACK_BG));
    assert_eq!(parse_bg_color(Some("#+f+f+f")), Some(DEFAULT_FALLBACK_BG));
    assert_eq!(parse_bg_color(Some("#+00")), Some(DEFAULT_FALLBACK_BG));
    // Non-ASCII text falls back to white, wherever its characters fall.
    assert_eq!(parse_bg_color(Some("#zé")), Some(DEFAULT_FALLBACK_BG));
    assert_eq!(parse_bg_color(Some("#aé")), Some(DEFAULT_FALLBACK_BG));
    assert_eq!(parse_bg_color(Some("#éé")), Some(DEFAULT_FALLBACK_BG));
    assert_eq!(parse_bg_color(Some("ééé")), Some(DEFAULT_FALLBACK_BG));
    // Short forms read as their doubled long forms.
    assert_eq!(parse_bg_color(Some("#a1c8")), parse_bg_color(Some("#aa11cc88")));
    assert_eq!(parse_bg_color(Some("#a1c8")), Some([0xaa, 0x11, 0xcc, 0x88]));
}
