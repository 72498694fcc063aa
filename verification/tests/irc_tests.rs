use img2irc::escape::EscapeType;
use img2irc::img::Pixel;
use img2irc::irc::{find_nearest_colour, palette_colour, palette_len, ColourType};
use img2irc::palette::{basic_colour_at, extended_colour_at};
use img2irc::tile::find_nearest_tile;

#[test]
fn palette_sizes() {
    assert_eq!(palette_len(&ColourType::Basic), 16);
    assert_eq!(palette_len(&ColourType::Extended), 99);
    assert_eq!(palette_len(&ColourType::RGB), 0);
}

#[test]
fn palette_entries_match_tables() {
    assert_eq!(basic_colour_at(0), (0xFF, 0xFF, 0xFF));
    assert_eq!(basic_colour_at(4), (0xFF, 0x00, 0x00));
    assert_eq!(basic_colour_at(15), (0xD2, 0xD2, 0xD2));
    assert_eq!(extended_colour_at(16), (0x47, 0x00, 0x00));
    assert_eq!(extended_colour_at(52), (0xFF, 0x00, 0x00));
    assert_eq!(extended_colour_at(98), (0xFF, 0xFF, 0xFF));
    assert_eq!(palette_colour(&ColourType::Basic, 1), (0x00, 0x00, 0x00));
    assert_eq!(palette_colour(&ColourType::Extended, 42), (0xB5, 0xB5, 0x00));
}

#[test]
fn nearest_colour_pure_red_is_04() {
    assert_eq!(find_nearest_colour((255, 0, 0), &ColourType::Basic), 4);
}

#[test]
fn nearest_colour_exact_entries() {
    // Exact palette colours resolve to their own identifier.
    assert_eq!(find_nearest_colour((0x00, 0x93, 0x00), &ColourType::Basic), 3);
    assert_eq!(find_nearest_colour((0x47, 0x21, 0x00), &ColourType::Extended), 17);
}

#[test]
fn nearest_colour_tie_prefers_lower_identifier() {
    // Extended identifiers 4 and 52 are both pure red, and 0 and 98 are both
    // white: an exact tie keeps the entry found first in ascending order.
    assert_eq!(find_nearest_colour((255, 0, 0), &ColourType::Extended), 4);
    assert_eq!(find_nearest_colour((255, 255, 255), &ColourType::Extended), 0);
}

#[test]
fn nearest_colour_is_deterministic() {
    for px in [(10u8, 200u8, 30u8), (128, 128, 128), (250, 250, 5)] {
        let a = find_nearest_colour(px, &ColourType::Extended);
        let b = find_nearest_colour(px, &ColourType::Extended);
        assert_eq!(a, b);
    }
}

#[test]
fn opaque_alpha_gives_solid_tile() {
    let (glyph, solid) = find_nearest_tile(255, false);
    assert_eq!(glyph, "\u{2588}\u{2588}");
    assert!(solid);
}

#[test]
fn forced_solid_ignores_alpha() {
    let (glyph, solid) = find_nearest_tile(0, true);
    assert_eq!(glyph, "\u{2588}\u{2588}");
    assert!(solid);
}

#[test]
fn tile_thresholds_round_to_nearest() {
    assert_eq!(find_nearest_tile(0, false), ("\u{20}\u{20}", false));
    assert_eq!(find_nearest_tile(31, false), ("\u{20}\u{20}", false));
    assert_eq!(find_nearest_tile(128, false), ("\u{2592}\u{2592}", false));
    assert_eq!(find_nearest_tile(191, false), ("\u{2593}\u{2593}", false));
    assert_eq!(find_nearest_tile(254, false), ("\u{2588}\u{2588}", true));
}

#[test]
fn tile_tie_prefers_lower_threshold() {
    // 95 is equally far from 63 and 127; 223 equally far from 191 and 255.
    assert_eq!(find_nearest_tile(95, false), ("\u{2591}\u{2591}", false));
    assert_eq!(find_nearest_tile(223, false), ("\u{2593}\u{2593}", false));
}

#[test]
fn escape_sequences_per_dialect() {
    assert_eq!(EscapeType::Control.colour(), "\u{3}");
    assert_eq!(EscapeType::Control.hex_colour(), "\u{4}");
    assert_eq!(EscapeType::Control.reset(), "\u{f}");
    assert_eq!(EscapeType::InspConfig.colour(), "&irc.colour;");
    assert_eq!(EscapeType::InspConfig.hex_colour(), "&irc.hexcolour;");
    assert_eq!(EscapeType::InspConfig.reset(), "&irc.reset;");
    assert_eq!(EscapeType::InspMOTD.colour(), "\\c");
    assert_eq!(EscapeType::InspMOTD.hex_colour(), "\\h");
    assert_eq!(EscapeType::InspMOTD.reset(), "\\x");
}

#[test]
fn colour_type_from_str_ignores_case() {
    assert!(matches!(ColourType::from_str("Basic"), Ok(ColourType::Basic)));
    assert!(matches!(ColourType::from_str("EXTENDED"), Ok(ColourType::Extended)));
    assert!(matches!(ColourType::from_str("rgb"), Ok(ColourType::RGB)));
}

#[test]
fn colour_type_from_str_rejects_unknown() {
    let err = ColourType::from_str("truecolour").unwrap_err();
    assert_eq!(err, "valid values: basic, extended, rgb");
}

#[test]
fn escape_type_from_str_ignores_case() {
    assert!(matches!(EscapeType::from_str("Control"), Ok(EscapeType::Control)));
    assert!(matches!(EscapeType::from_str("INSP-CONFIG"), Ok(EscapeType::InspConfig)));
    assert!(matches!(EscapeType::from_str("insp-motd"), Ok(EscapeType::InspMOTD)));
}

#[test]
fn escape_type_from_str_rejects_unknown() {
    let err = EscapeType::from_str("ansi").unwrap_err();
    assert_eq!(err, "valid values: control, insp-config, insp-motd");
}

#[test]
fn display_names() {
    assert_eq!(ColourType::Basic.as_str(), "basic");
    assert_eq!(ColourType::Extended.as_str(), "extended");
    assert_eq!(ColourType::RGB.as_str(), "rgb");
    assert_eq!(EscapeType::Control.as_str(), "control");
    assert_eq!(EscapeType::InspConfig.as_str(), "insp-config");
    assert_eq!(EscapeType::InspMOTD.as_str(), "insp-motd");
}

#[test]
fn default_widths() {
    assert_eq!(ColourType::Basic.default_width(), 54);
    assert_eq!(ColourType::Extended.default_width(), 54);
    assert_eq!(ColourType::RGB.default_width(), 23);
}

#[test]
fn to_irc_low_alpha_emits_exactly_reset() {
    // Whatever the palette mode and colour, a pixel under the cutoff gets
    // only the reset sequence, and its glyph is chosen by alpha as usual.
    let px = Pixel { r: 200, g: 10, b: 10, a: 10 };
    for ct in [ColourType::Basic, ColourType::Extended, ColourType::RGB] {
        let (colour, glyph) = ct.to_irc(px, &EscapeType::Control, 50, false);
        assert_eq!(colour, "\u{f}");
        assert_eq!(glyph, "\u{20}\u{20}");
    }
    let (colour, _) = ColourType::Basic.to_irc(px, &EscapeType::InspMOTD, 50, false);
    assert_eq!(colour, "\\x");
}

#[test]
fn to_irc_basic_solid_pairs_foreground_and_background() {
    let px = Pixel { r: 255, g: 0, b: 0, a: 255 };
    let (colour, glyph) = ColourType::Basic.to_irc(px, &EscapeType::Control, 0, false);
    assert_eq!(colour, "\u{3}04,04");
    assert_eq!(glyph, "\u{2588}\u{2588}");
}

#[test]
fn to_irc_basic_translucent_uses_sentinel_background() {
    let px = Pixel { r: 255, g: 0, b: 0, a: 128 };
    let (colour, glyph) = ColourType::Basic.to_irc(px, &EscapeType::Control, 0, false);
    assert_eq!(colour, "\u{3}04,99");
    assert_eq!(glyph, "\u{2592}\u{2592}");
}

#[test]
fn to_irc_rgb_solid_sets_both_hex_colours() {
    let px = Pixel { r: 0xAB, g: 0x0F, b: 0x00, a: 255 };
    let (colour, glyph) = ColourType::RGB.to_irc(px, &EscapeType::Control, 0, false);
    assert_eq!(colour, "\u{4}AB0F00,AB0F00");
    assert_eq!(glyph, "\u{2588}\u{2588}");
}

#[test]
fn to_irc_rgb_translucent_resets_then_sets_foreground() {
    let px = Pixel { r: 10, g: 20, b: 30, a: 128 };
    let (colour, glyph) = ColourType::RGB.to_irc(px, &EscapeType::Control, 0, false);
    assert_eq!(colour, "\u{f}\u{4}0A141E");
    assert_eq!(glyph, "\u{2592}\u{2592}");
}
