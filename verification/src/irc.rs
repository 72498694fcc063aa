use vstd::prelude::*;
use vstd::string::StringExecFns;

use crate::distance::{
    lemma_nearest_prefix_range, nearest_colour_spec, nearest_prefix, oklab_dist_key,
    oklab_dist_key_exec,
};
use crate::escape::{colour_prefix_seq, hex_prefix_seq, reset_seq, EscapeType};
use crate::img::Pixel;
use crate::palette::{
    basic_colour_at, basic_palette, extended_colour_at, extended_palette,
};
use crate::text::{hex_rgb, lower_of, lowercase, pad2_dec, push_hex_rgb, push_pad2_dec};
use crate::tile::{find_nearest_tile, tile_glyph, tile_index_spec};

verus! {

/// Different types of IRC colour code.
#[derive(Clone, Copy, Debug)]
pub enum ColourType {
    /// Use colour codes 00-15.
    Basic,
    /// Use colour codes 00-98.
    Extended,
    /// Use RGB colour codes (not widely supported).
    RGB,
}

/// The palette a colour type draws its indexed codes from; the direct-RGB
/// type has none.
pub open spec fn palette_seq(ct: ColourType) -> Seq<(u8, u8, u8)> {
    match ct {
        ColourType::Basic => basic_palette(),
        ColourType::Extended => extended_palette(),
        ColourType::RGB => Seq::empty(),
    }
}

/// The lower-cased names accepted by `ColourType::from_str`.
pub open spec fn colour_type_of(t: Seq<char>) -> Option<ColourType> {
    if t == "basic"@ {
        Some(ColourType::Basic)
    } else if t == "extended"@ {
        Some(ColourType::Extended)
    } else if t == "rgb"@ {
        Some(ColourType::RGB)
    } else {
        None
    }
}

/// The display name of a colour type.
pub open spec fn colour_type_name(ct: ColourType) -> Seq<char> {
    match ct {
        ColourType::Basic => "basic"@,
        ColourType::Extended => "extended"@,
        ColourType::RGB => "rgb"@,
    }
}

pub open spec fn default_width_spec(ct: ColourType) -> u32 {
    match ct {
        ColourType::Basic => 54u32,
        ColourType::Extended => 54u32,
        ColourType::RGB => 23u32,
    }
}

/// The background identifier paired with a foreground: the foreground itself
/// for a solid glyph, else the "leave the client default" sentinel 99.
pub open spec fn bg_code_spec(fg: int, solid: bool) -> int {
    if solid {
        fg
    } else {
        99
    }
}

/// An indexed colour change: prefix, two-digit foreground, comma, two-digit
/// background.
pub open spec fn indexed_colour_seq(et: EscapeType, fg: int, solid: bool) -> Seq<char> {
    colour_prefix_seq(et) + pad2_dec(fg) + ","@ + pad2_dec(bg_code_spec(fg, solid))
}

/// A direct-RGB colour change: for a solid glyph both foreground and
/// background are set to the pixel's colour; otherwise formatting is reset
/// and only the foreground is set, since the direct form has no transparent
/// background sentinel.
pub open spec fn rgb_colour_seq(et: EscapeType, r: u8, g: u8, b: u8, solid: bool) -> Seq<char> {
    if solid {
        hex_prefix_seq(et) + hex_rgb(r, g, b) + ","@ + hex_rgb(r, g, b)
    } else {
        reset_seq(et) + hex_prefix_seq(et) + hex_rgb(r, g, b)
    }
}

/// The colour-escape string emitted ahead of a pixel's glyph. A pixel whose
/// alpha lies below the cutoff gets exactly the dialect's reset sequence,
/// whatever the palette mode and colour.
pub open spec fn colour_string_spec(
    ct: ColourType,
    et: EscapeType,
    px: Pixel,
    min_alpha: u8,
    solid: bool,
) -> Seq<char> {
    if px.a < min_alpha {
        reset_seq(et)
    } else {
        let is_solid = tile_index_spec(px.a, solid) == 4;
        match ct {
            ColourType::Basic => indexed_colour_seq(
                et,
                nearest_colour_spec((px.r, px.g, px.b), basic_palette()),
                is_solid,
            ),
            ColourType::Extended => indexed_colour_seq(
                et,
                nearest_colour_spec((px.r, px.g, px.b), extended_palette()),
                is_solid,
            ),
            ColourType::RGB => rgb_colour_seq(et, px.r, px.g, px.b, is_solid),
        }
    }
}

/// The RGB triple of the palette entry with identifier `idx`.
pub fn palette_colour(colours: &ColourType, idx: u8) -> (c: (u8, u8, u8))
    requires
        (idx as int) < palette_seq(*colours).len(),
    ensures
        c == palette_seq(*colours)[idx as int],
{
    match colours {
        ColourType::Basic => basic_colour_at(idx),
        ColourType::Extended => extended_colour_at(idx),
        // Unreachable: the direct-RGB type has no palette entries, so the
        // precondition rules it out.
        ColourType::RGB => (0, 0, 0),
    }
}

/// How many entries the colour type's palette has.
pub fn palette_len(colours: &ColourType) -> (n: usize)
    ensures
        n == palette_seq(*colours).len(),
        n <= 99,
{
    match colours {
        ColourType::Basic => 16,
        ColourType::Extended => 99,
        ColourType::RGB => 0,
    }
}

/// Finds the nearest IRC colour code to a pixel by perceptual distance,
/// scanning identifiers in ascending order so that ties go to the smaller
/// identifier.
pub fn find_nearest_colour(pixel: (u8, u8, u8), colours: &ColourType) -> (code: u8)
    requires
        palette_seq(*colours).len() > 0,
    ensures
        code as int == nearest_colour_spec(pixel, palette_seq(*colours)),
        (code as int) < palette_seq(*colours).len(),
{
    let len = palette_len(colours);
    let first = palette_colour(colours, 0);
    let mut best: usize = 0;
    let mut best_key: u32 = oklab_dist_key_exec(pixel, first);
    for i in 1..len
        invariant
            best < i <= len,
            len == palette_seq(*colours).len(),
            len <= 99,
            best as int == nearest_prefix(pixel, palette_seq(*colours), i as int),
            best_key == oklab_dist_key(pixel, palette_seq(*colours)[best as int]),
    {
        let candidate = palette_colour(colours, i as u8);
        let key = oklab_dist_key_exec(pixel, candidate);
        if key < best_key {
            best = i;
            best_key = key;
        }
    }
    proof {
        lemma_nearest_prefix_range(pixel, palette_seq(*colours), len as int);
    }
    best as u8
}

impl ColourType {
    /// Converts a pixel to an IRC colour code: the escape string that must
    /// precede the pixel's glyph, and the glyph itself.
    pub fn to_irc(&self, pixel: Pixel, escape_type: &EscapeType, min_alpha: u8, solid: bool) -> (r:
        (String, &'static str))
        ensures
            r.0@ == colour_string_spec(*self, *escape_type, pixel, min_alpha, solid),
            r.1@ == tile_glyph(tile_index_spec(pixel.a, solid)),
    {
        let tile = find_nearest_tile(pixel.a, solid);

        if pixel.a < min_alpha {
            return (escape_type.reset().to_owned(), tile.0);
        }

        let mut colour = String::new();
        match self {
            ColourType::Basic | ColourType::Extended => {
                colour.append(escape_type.colour());
                let fg_code = find_nearest_colour((pixel.r, pixel.g, pixel.b), self);
                push_pad2_dec(&mut colour, fg_code);
                colour.append(",");
                let bg_code = if tile.1 {
                    fg_code
                } else {
                    99
                };
                push_pad2_dec(&mut colour, bg_code);
            },
            ColourType::RGB => {
                if tile.1 {
                    colour.append(escape_type.hex_colour());
                    push_hex_rgb(&mut colour, pixel.r, pixel.g, pixel.b);
                    colour.append(",");
                    push_hex_rgb(&mut colour, pixel.r, pixel.g, pixel.b);
                } else {
                    colour.append(escape_type.reset());
                    colour.append(escape_type.hex_colour());
                    push_hex_rgb(&mut colour, pixel.r, pixel.g, pixel.b);
                }
            },
        }
        proof {
            assert(colour@ =~= colour_string_spec(*self, *escape_type, pixel, min_alpha, solid));
        }
        (colour, tile.0)
    }

    /// Determines the default line width for a colour type.
    pub fn default_width(&self) -> (w: u32)
        ensures
            w == default_width_spec(*self),
            w > 0,
    {
        match self {
            ColourType::Basic => 54,
            ColourType::Extended => 54,
            ColourType::RGB => 23,
        }
    }

    /// Parses a colour type from its name, ignoring letter case.
    pub fn from_str(s: &str) -> (r: Result<ColourType, &'static str>)
        ensures
            r is Ok <==> colour_type_of(lower_of(s@)) is Some,
            r is Ok ==> Some(r->Ok_0) == colour_type_of(lower_of(s@)),
            r is Err ==> r->Err_0@ == "valid values: basic, extended, rgb"@,
    {
        let low = lowercase(s);
        if low == "basic".to_owned() {
            Ok(ColourType::Basic)
        } else if low == "extended".to_owned() {
            Ok(ColourType::Extended)
        } else if low == "rgb".to_owned() {
            Ok(ColourType::RGB)
        } else {
            Err("valid values: basic, extended, rgb")
        }
    }

    /// The display name of this colour type.
    pub fn as_str(&self) -> (r: &'static str)
        ensures
            r@ == colour_type_name(*self),
    {
        match self {
            ColourType::Basic => "basic",
            ColourType::Extended => "extended",
            ColourType::RGB => "rgb",
        }
    }
}

/// A pixel whose alpha lies below the cutoff always gets exactly the
/// dialect's reset sequence, whatever the palette mode and colour.
pub proof fn lemma_low_alpha_resets(
    ct: ColourType,
    et: EscapeType,
    px: Pixel,
    min_alpha: u8,
    solid: bool,
)
    requires
        px.a < min_alpha,
    ensures
        colour_string_spec(ct, et, px, min_alpha, solid) == reset_seq(et),
{
}

} // verus!
