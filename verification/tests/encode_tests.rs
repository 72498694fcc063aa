use img2irc::escape::EscapeType;
use img2irc::img::{resize_height, Image, LineBreak, Pixel};
use img2irc::irc::ColourType;
use img2irc::Args;

fn px(r: u8, g: u8, b: u8, a: u8) -> Pixel {
    Pixel { r, g, b, a }
}

fn grid(width: usize, rows: Vec<Vec<Pixel>>) -> Image {
    Image::new(width, rows).expect("rectangular grid")
}

#[test]
fn one_red_pixel_basic_control() {
    let image = grid(1, vec![vec![px(255, 0, 0, 255)]]);
    let text = image.convert(&ColourType::Basic, &EscapeType::Control, 0, false, &LineBreak::Lf);
    assert_eq!(text, "\u{3}04,04\u{2588}\u{2588}\n");
}

#[test]
fn one_transparent_pixel_resets() {
    let image = grid(1, vec![vec![px(0, 0, 0, 0)]]);
    let text = image.convert(&ColourType::Basic, &EscapeType::Control, 1, false, &LineBreak::Lf);
    assert_eq!(text, "\u{f}\u{20}\u{20}\n");
    let text = image.convert(&ColourType::Extended, &EscapeType::Control, 1, false, &LineBreak::Lf);
    assert_eq!(text, "\u{f}\u{20}\u{20}\n");
}

#[test]
fn one_half_alpha_pixel_direct_rgb() {
    let image = grid(1, vec![vec![px(10, 20, 30, 128)]]);
    let text = image.convert(&ColourType::RGB, &EscapeType::Control, 0, false, &LineBreak::Lf);
    assert_eq!(text, "\u{f}\u{4}0A141E\u{2592}\u{2592}\n");
}

#[test]
fn run_of_equal_colours_pays_one_escape() {
    let image = grid(3, vec![vec![px(255, 0, 0, 255), px(254, 0, 0, 255), px(255, 0, 0, 255)]]);
    let text = image.convert(&ColourType::Basic, &EscapeType::Control, 0, false, &LineBreak::Lf);
    assert_eq!(text, "\u{3}04,04\u{2588}\u{2588}\u{2588}\u{2588}\u{2588}\u{2588}\n");
}

#[test]
fn colour_change_emits_new_escape() {
    let image = grid(2, vec![vec![px(255, 0, 0, 255), px(0, 0, 0, 255)]]);
    let text = image.convert(&ColourType::Basic, &EscapeType::Control, 0, false, &LineBreak::Lf);
    assert_eq!(
        text,
        "\u{3}04,04\u{2588}\u{2588}\u{3}01,01\u{2588}\u{2588}\n"
    );
}

#[test]
fn rows_encode_independently() {
    let top = vec![px(255, 0, 0, 255), px(255, 0, 0, 255)];
    let bottom = vec![px(255, 0, 0, 255), px(0, 0, 0, 255)];
    let both = grid(2, vec![top.clone(), bottom.clone()]);
    let top_only = grid(2, vec![top]);
    let bottom_only = grid(2, vec![bottom]);
    let whole = both.convert(&ColourType::Basic, &EscapeType::Control, 0, false, &LineBreak::Lf);
    let first = top_only.convert(&ColourType::Basic, &EscapeType::Control, 0, false, &LineBreak::Lf);
    let second =
        bottom_only.convert(&ColourType::Basic, &EscapeType::Control, 0, false, &LineBreak::Lf);
    assert_eq!(whole, format!("{}{}", first, second));
}

#[test]
fn suppression_state_resets_at_row_boundary() {
    // The same colour on both rows is re-emitted on the second row.
    let image = grid(1, vec![vec![px(255, 0, 0, 255)], vec![px(255, 0, 0, 255)]]);
    let text = image.convert(&ColourType::Basic, &EscapeType::Control, 0, false, &LineBreak::Lf);
    assert_eq!(text, "\u{3}04,04\u{2588}\u{2588}\n\u{3}04,04\u{2588}\u{2588}\n");
}

#[test]
fn extended_palette_uses_high_identifiers() {
    // 0x470000 is exactly extended entry 16, which the basic palette lacks.
    let image = grid(1, vec![vec![px(0x47, 0x00, 0x00, 255)]]);
    let text = image.convert(&ColourType::Extended, &EscapeType::Control, 0, false, &LineBreak::Lf);
    assert_eq!(text, "\u{3}16,16\u{2588}\u{2588}\n");
}

#[test]
fn insp_motd_dialect_prefixes_colours() {
    let image = grid(1, vec![vec![px(255, 0, 0, 255)]]);
    let text = image.convert(&ColourType::Basic, &EscapeType::InspMOTD, 0, false, &LineBreak::Lf);
    assert_eq!(text, "\\c04,04\u{2588}\u{2588}\n");
}

#[test]
fn crlf_terminates_rows_when_asked() {
    let image = grid(1, vec![vec![px(255, 0, 0, 255)]]);
    let text = image.convert(&ColourType::Basic, &EscapeType::Control, 0, false, &LineBreak::CrLf);
    assert_eq!(text, "\u{3}04,04\u{2588}\u{2588}\r\n");
}

#[test]
fn insp_config_dialect_spells_out_escapes() {
    let image = grid(1, vec![vec![px(0, 0, 0, 0)]]);
    let text =
        image.convert(&ColourType::Basic, &EscapeType::InspConfig, 1, false, &LineBreak::Lf);
    assert_eq!(text, "&irc.reset;\u{20}\u{20}\n");
}

#[test]
fn forced_solid_keeps_background_paired() {
    let image = grid(1, vec![vec![px(10, 20, 30, 128)]]);
    let text = image.convert(&ColourType::RGB, &EscapeType::Control, 0, true, &LineBreak::Lf);
    assert_eq!(text, "\u{4}0A141E,0A141E\u{2588}\u{2588}\n");
}

#[test]
fn empty_grid_encodes_to_nothing() {
    let image = grid(0, vec![]);
    let text = image.convert(&ColourType::Basic, &EscapeType::Control, 0, false, &LineBreak::Lf);
    assert_eq!(text, "");
}

#[test]
fn zero_width_grid_encodes_to_nothing() {
    let image = grid(0, vec![vec![], vec![]]);
    let text = image.convert(&ColourType::Basic, &EscapeType::Control, 0, false, &LineBreak::Lf);
    assert_eq!(text, "");
}

#[test]
fn ragged_rows_are_refused() {
    let rows = vec![vec![px(0, 0, 0, 255)], vec![px(0, 0, 0, 255), px(0, 0, 0, 255)]];
    assert!(Image::new(1, rows).is_none());
    assert!(Image::new(2, vec![vec![px(0, 0, 0, 255)]]).is_none());
}

#[test]
fn image_reports_its_dimensions() {
    let image = grid(2, vec![vec![px(1, 2, 3, 4), px(5, 6, 7, 8)]]);
    assert_eq!(image.width(), 2);
    assert_eq!(image.height(), 1);
    assert_eq!(image.pixel_at(1, 0), px(5, 6, 7, 8));
}

#[test]
fn resize_height_defaults_to_native() {
    assert_eq!(resize_height(Some(12), 300), 12);
    assert_eq!(resize_height(None, 300), 300);
}

#[test]
fn effective_width_falls_back_to_default() {
    let mut args = Args {
        colour_type: ColourType::RGB,
        escape_type: EscapeType::Control,
        max_height: None,
        max_width: None,
        min_alpha: 0,
        source: String::from("in.png"),
        target: None,
    };
    assert_eq!(args.effective_width(), 23);
    args.max_width = Some(80);
    assert_eq!(args.effective_width(), 80);
    args.max_width = None;
    args.colour_type = ColourType::Extended;
    assert_eq!(args.effective_width(), 54);
}
