use vstd::prelude::*;
use vstd::string::StringExecFns;

use crate::escape::EscapeType;
use crate::irc::{colour_string_spec, ColourType};
use crate::tile::{tile_glyph, tile_index_spec};

verus! {

/// One pixel of a decoded image: four 8-bit channels.
#[derive(Clone, Copy, Debug, PartialEq, Eq, Structural)]
pub struct Pixel {
    pub r: u8,
    pub g: u8,
    pub b: u8,
    pub a: u8,
}

/// The terminator appended after each encoded row.
#[derive(Clone, Copy)]
pub enum LineBreak {
    /// A bare linefeed.
    Lf,
    /// A carriage return followed by a linefeed.
    CrLf,
}

pub open spec fn line_break_seq(lb: LineBreak) -> Seq<char> {
    match lb {
        LineBreak::Lf => "\n"@,
        LineBreak::CrLf => "\r\n"@,
    }
}

impl LineBreak {
    pub fn as_str(&self) -> (r: &'static str)
        ensures
            r@ == line_break_seq(*self),
    {
        match self {
            LineBreak::Lf => "\n",
            LineBreak::CrLf => "\r\n",
        }
    }
}

/// The glyph standing for a pixel, as chosen by its alpha level.
pub open spec fn glyph_of(px: Pixel, solid: bool) -> Seq<char> {
    tile_glyph(tile_index_spec(px.a, solid))
}

/// The encoding of a row's pixels from position `j` on, given the colour
/// string most recently emitted: a pixel whose colour string equals that one
/// contributes only its glyph, any other pixel contributes its colour string
/// and then its glyph.
pub open spec fn encode_pixels_from(
    row: Seq<Pixel>,
    j: int,
    ct: ColourType,
    et: EscapeType,
    min_alpha: u8,
    solid: bool,
    prev: Seq<char>,
) -> Seq<char>
    decreases row.len() - j,
{
    if j < 0 || j >= row.len() {
        Seq::empty()
    } else {
        let c = colour_string_spec(ct, et, row[j], min_alpha, solid);
        let g = glyph_of(row[j], solid);
        (if c == prev {
            g
        } else {
            c + g
        }) + encode_pixels_from(row, j + 1, ct, et, min_alpha, solid, c)
    }
}

/// One encoded row: the suppression state starts empty, and the terminator
/// follows the last pixel.
pub open spec fn encode_row_spec(
    row: Seq<Pixel>,
    ct: ColourType,
    et: EscapeType,
    min_alpha: u8,
    solid: bool,
    term: Seq<char>,
) -> Seq<char> {
    encode_pixels_from(row, 0, ct, et, min_alpha, solid, Seq::empty()) + term
}

/// The encoding of a grid's rows from row `i` on.
pub open spec fn encode_rows_from(
    grid: Seq<Seq<Pixel>>,
    i: int,
    ct: ColourType,
    et: EscapeType,
    min_alpha: u8,
    solid: bool,
    term: Seq<char>,
) -> Seq<char>
    decreases grid.len() - i,
{
    if i < 0 || i >= grid.len() {
        Seq::empty()
    } else {
        encode_row_spec(grid[i], ct, et, min_alpha, solid, term) + encode_rows_from(
            grid,
            i + 1,
            ct,
            et,
            min_alpha,
            solid,
            term,
        )
    }
}

/// The text an image encodes to, row-major.
pub open spec fn encode_grid_spec(
    grid: Seq<Seq<Pixel>>,
    ct: ColourType,
    et: EscapeType,
    min_alpha: u8,
    solid: bool,
    term: Seq<char>,
) -> Seq<char> {
    encode_rows_from(grid, 0, ct, et, min_alpha, solid, term)
}

/// A rectangular grid of pixels, stored row-major.
pub struct Image {
    width: usize,
    rows: Vec<Vec<Pixel>>,
}

impl View for Image {
    type V = Seq<Seq<Pixel>>;

    closed spec fn view(&self) -> Seq<Seq<Pixel>> {
        self.rows@.map_values(|row: Vec<Pixel>| row@)
    }
}

impl Image {
    /// Every row is exactly as wide as the image.
    pub closed spec fn wf(&self) -> bool {
        forall|i: int| 0 <= i < self.rows@.len() ==> (#[trigger] self.rows@[i])@.len() == self.width
    }

    pub closed spec fn spec_width(&self) -> usize {
        self.width
    }

    /// Builds an image from its rows; refused unless every row has exactly
    /// `width` pixels.
    pub fn new(width: usize, rows: Vec<Vec<Pixel>>) -> (r: Option<Image>)
        ensures
            r is Some <==> (forall|i: int|
                0 <= i < rows@.len() ==> (#[trigger] rows@[i])@.len() == width),
            r matches Some(img) ==> img.wf() && img.spec_width() == width && img@ == rows@.map_values(
                |row: Vec<Pixel>| row@,
            ),
    {
        let n = rows.len();
        for i in 0..n
            invariant
                n == rows@.len(),
                forall|k: int| 0 <= k < i ==> (#[trigger] rows@[k])@.len() == width,
        {
            if rows[i].len() != width {
                return None;
            }
        }
        Some(Image { width, rows })
    }

    /// How many pixels wide the image is.
    pub fn width(&self) -> (w: usize)
        ensures
            w == self.spec_width(),
    {
        self.width
    }

    /// How many rows the image has.
    pub fn height(&self) -> (h: usize)
        ensures
            h == self@.len(),
    {
        self.rows.len()
    }

    /// The pixel in row `y` at column `x`.
    pub fn pixel_at(&self, x: usize, y: usize) -> (px: Pixel)
        requires
            y < self@.len(),
            x < self@[y as int].len(),
        ensures
            px == self@[y as int][x as int],
    {
        self.rows[y][x]
    }

    /// Converts the image to IRC formatting: walks the pixels row-major,
    /// emits a colour escape only where it differs from the one most
    /// recently emitted in the row, always emits the glyph, and terminates
    /// each row with the line break. A zero-width or zero-height image
    /// yields an empty output with no rows.
    #[verifier::rlimit(50)]
    pub fn convert(
        &self,
        colour_type: &ColourType,
        escape_type: &EscapeType,
        min_alpha: u8,
        solid: bool,
        line_break: &LineBreak,
    ) -> (text: String)
        requires
            self.wf(),
        ensures
            text@ == (if self.spec_width() == 0 {
                Seq::<char>::empty()
            } else {
                encode_grid_spec(
                    self@,
                    *colour_type,
                    *escape_type,
                    min_alpha,
                    solid,
                    line_break_seq(*line_break),
                )
            }),
    {
        if self.width == 0 {
            return String::new();
        }
        let ghost term = line_break_seq(*line_break);
        let ghost target = encode_grid_spec(
            self@,
            *colour_type,
            *escape_type,
            min_alpha,
            solid,
            term,
        );
        let mut buffer = String::new();
        let mut previous_colour = String::new();
        let height = self.rows.len();
        for row in 0..height
            invariant
                self.wf(),
                height == self.rows@.len(),
                term == line_break_seq(*line_break),
                previous_colour@ == Seq::<char>::empty(),
                target == encode_grid_spec(
                    self@,
                    *colour_type,
                    *escape_type,
                    min_alpha,
                    solid,
                    term,
                ),
                target == buffer@ + encode_rows_from(
                    self@,
                    row as int,
                    *colour_type,
                    *escape_type,
                    min_alpha,
                    solid,
                    term,
                ),
        {
            let width = self.rows[row].len();
            proof {
                assert(self@[row as int] == self.rows@[row as int]@);
                assert(encode_rows_from(
                    self@,
                    row as int,
                    *colour_type,
                    *escape_type,
                    min_alpha,
                    solid,
                    term,
                ) == encode_row_spec(
                    self@[row as int],
                    *colour_type,
                    *escape_type,
                    min_alpha,
                    solid,
                    term,
                ) + encode_rows_from(
                    self@,
                    row as int + 1,
                    *colour_type,
                    *escape_type,
                    min_alpha,
                    solid,
                    term,
                ));
                assert(buffer@ + (encode_pixels_from(
                    self@[row as int],
                    0,
                    *colour_type,
                    *escape_type,
                    min_alpha,
                    solid,
                    Seq::empty(),
                ) + term + encode_rows_from(
                    self@,
                    row as int + 1,
                    *colour_type,
                    *escape_type,
                    min_alpha,
                    solid,
                    term,
                )) =~= buffer@ + encode_rows_from(
                    self@,
                    row as int,
                    *colour_type,
                    *escape_type,
                    min_alpha,
                    solid,
                    term,
                ));
            }
            for column in 0..width
                invariant
                    self.wf(),
                    height == self.rows@.len(),
                    row < height,
                    width == self@[row as int].len(),
                    target == buffer@ + encode_pixels_from(
                        self@[row as int],
                        column as int,
                        *colour_type,
                        *escape_type,
                        min_alpha,
                        solid,
                        previous_colour@,
                    ) + term + encode_rows_from(
                        self@,
                        row as int + 1,
                        *colour_type,
                        *escape_type,
                        min_alpha,
                        solid,
                        term,
                    ),
            {
                proof {
                    assert(self@[row as int] == self.rows@[row as int]@);
                }
                let pixel = self.rows[row][column];
                let ghost prev0 = previous_colour@;
                let ghost c = colour_string_spec(
                    *colour_type,
                    *escape_type,
                    pixel,
                    min_alpha,
                    solid,
                );
                let ghost g = glyph_of(pixel, solid);
                proof {
                    assert(encode_pixels_from(
                        self@[row as int],
                        column as int,
                        *colour_type,
                        *escape_type,
                        min_alpha,
                        solid,
                        prev0,
                    ) == (if c == prev0 {
                        g
                    } else {
                        c + g
                    }) + encode_pixels_from(
                        self@[row as int],
                        column as int + 1,
                        *colour_type,
                        *escape_type,
                        min_alpha,
                        solid,
                        c,
                    ));
                }
                let colour = colour_type.to_irc(pixel, escape_type, min_alpha, solid);
                let same = colour.0 == previous_colour;
                if !same {
                    buffer.append(colour.0.as_str());
                    previous_colour = colour.0;
                }
                buffer.append(colour.1);
                proof {
                    assert(buffer@ + encode_pixels_from(
                        self@[row as int],
                        column as int + 1,
                        *colour_type,
                        *escape_type,
                        min_alpha,
                        solid,
                        previous_colour@,
                    ) + term + encode_rows_from(
                        self@,
                        row as int + 1,
                        *colour_type,
                        *escape_type,
                        min_alpha,
                        solid,
                        term,
                    ) =~= target);
                }
            }
            let ghost buf_row_end = buffer@;
            let ghost rows_rest = encode_rows_from(
                self@,
                row as int + 1,
                *colour_type,
                *escape_type,
                min_alpha,
                solid,
                term,
            );
            proof {
                assert(encode_pixels_from(
                    self@[row as int],
                    width as int,
                    *colour_type,
                    *escape_type,
                    min_alpha,
                    solid,
                    previous_colour@,
                ) =~= Seq::<char>::empty());
                assert(target =~= buf_row_end + term + rows_rest);
            }
            buffer.append(line_break.as_str());
            previous_colour = String::new();
            proof {
                assert(buffer@ == buf_row_end + term);
                assert(buffer@ + rows_rest =~= target);
            }
        }
        proof {
            assert(buffer@ =~= target);
        }
        buffer
    }
}

/// The glyphs of the pixels in `row[j..k)`, concatenated.
pub open spec fn glyphs_between(row: Seq<Pixel>, j: int, k: int, solid: bool) -> Seq<char>
    decreases k - j,
{
    if j < 0 || j >= k || k > row.len() {
        Seq::empty()
    } else {
        glyph_of(row[j], solid) + glyphs_between(row, j + 1, k, solid)
    }
}

/// Pixels whose colour string equals the one already in force emit no
/// escape at all: a run continuing the previous colour costs one glyph per
/// pixel and nothing more.
pub proof fn lemma_run_suppressed(
    row: Seq<Pixel>,
    j: int,
    k: int,
    ct: ColourType,
    et: EscapeType,
    min_alpha: u8,
    solid: bool,
    c: Seq<char>,
)
    requires
        0 <= j <= k <= row.len(),
        forall|m: int| j <= m < k ==> colour_string_spec(ct, et, #[trigger] row[m], min_alpha, solid) == c,
    ensures
        encode_pixels_from(row, j, ct, et, min_alpha, solid, c) == glyphs_between(row, j, k, solid)
            + encode_pixels_from(row, k, ct, et, min_alpha, solid, c),
    decreases k - j,
{
    if j < k {
        lemma_run_suppressed(row, j + 1, k, ct, et, min_alpha, solid, c);
        assert(glyph_of(row[j], solid) + (glyphs_between(row, j + 1, k, solid)
            + encode_pixels_from(row, k, ct, et, min_alpha, solid, c)) =~= glyphs_between(
            row,
            j,
            k,
            solid,
        ) + encode_pixels_from(row, k, ct, et, min_alpha, solid, c));
    } else {
        assert(glyphs_between(row, j, k, solid) == Seq::<char>::empty());
        assert(Seq::<char>::empty() + encode_pixels_from(row, k, ct, et, min_alpha, solid, c)
            =~= encode_pixels_from(row, k, ct, et, min_alpha, solid, c));
    }
}

/// Within a single unbroken run of pixels whose resolved colour string is
/// identical and differs from the colour in force before it, exactly one
/// escape sequence is emitted for the entire run, immediately followed by
/// one glyph per pixel in the run.
pub proof fn lemma_one_escape_per_run(
    row: Seq<Pixel>,
    j: int,
    k: int,
    ct: ColourType,
    et: EscapeType,
    min_alpha: u8,
    solid: bool,
    prev: Seq<char>,
    c: Seq<char>,
)
    requires
        0 <= j < k <= row.len(),
        forall|m: int| j <= m < k ==> colour_string_spec(ct, et, #[trigger] row[m], min_alpha, solid) == c,
        prev != c,
    ensures
        encode_pixels_from(row, j, ct, et, min_alpha, solid, prev) == c + glyphs_between(
            row,
            j,
            k,
            solid,
        ) + encode_pixels_from(row, k, ct, et, min_alpha, solid, c),
{
    lemma_run_suppressed(row, j + 1, k, ct, et, min_alpha, solid, c);
    assert((c + glyph_of(row[j], solid)) + (glyphs_between(row, j + 1, k, solid)
        + encode_pixels_from(row, k, ct, et, min_alpha, solid, c)) =~= c + glyphs_between(
        row,
        j,
        k,
        solid,
    ) + encode_pixels_from(row, k, ct, et, min_alpha, solid, c));
}

proof fn lemma_rows_from_shift(
    a: Seq<Seq<Pixel>>,
    b: Seq<Seq<Pixel>>,
    j: int,
    ct: ColourType,
    et: EscapeType,
    min_alpha: u8,
    solid: bool,
    term: Seq<char>,
)
    requires
        0 <= j <= b.len(),
    ensures
        encode_rows_from(a + b, a.len() + j, ct, et, min_alpha, solid, term) == encode_rows_from(
            b,
            j,
            ct,
            et,
            min_alpha,
            solid,
            term,
        ),
    decreases b.len() - j,
{
    if j < b.len() {
        lemma_rows_from_shift(a, b, j + 1, ct, et, min_alpha, solid, term);
        assert((a + b)[a.len() + j] == b[j]);
    }
}

proof fn lemma_rows_concat_from(
    a: Seq<Seq<Pixel>>,
    b: Seq<Seq<Pixel>>,
    i: int,
    ct: ColourType,
    et: EscapeType,
    min_alpha: u8,
    solid: bool,
    term: Seq<char>,
)
    requires
        0 <= i <= a.len(),
    ensures
        encode_rows_from(a + b, i, ct, et, min_alpha, solid, term) == encode_rows_from(
            a,
            i,
            ct,
            et,
            min_alpha,
            solid,
            term,
        ) + encode_rows_from(b, 0, ct, et, min_alpha, solid, term),
    decreases a.len() - i,
{
    if i < a.len() {
        lemma_rows_concat_from(a, b, i + 1, ct, et, min_alpha, solid, term);
        assert((a + b)[i] == a[i]);
        assert(encode_row_spec(a[i], ct, et, min_alpha, solid, term) + (encode_rows_from(
            a,
            i + 1,
            ct,
            et,
            min_alpha,
            solid,
            term,
        ) + encode_rows_from(b, 0, ct, et, min_alpha, solid, term)) =~= (encode_row_spec(
            a[i],
            ct,
            et,
            min_alpha,
            solid,
            term,
        ) + encode_rows_from(a, i + 1, ct, et, min_alpha, solid, term)) + encode_rows_from(
            b,
            0,
            ct,
            et,
            min_alpha,
            solid,
            term,
        ));
    } else {
        lemma_rows_from_shift(a, b, 0, ct, et, min_alpha, solid, term);
        assert(encode_rows_from(a, a.len() as int, ct, et, min_alpha, solid, term)
            == Seq::<char>::empty());
        assert(Seq::<char>::empty() + encode_rows_from(b, 0, ct, et, min_alpha, solid, term)
            =~= encode_rows_from(b, 0, ct, et, min_alpha, solid, term));
    }
}

/// Row outputs are independent: encoding the rows of `a` followed by the
/// rows of `b` yields exactly the encoding of `a` followed by the encoding
/// of `b` — the encoder carries no state across a row boundary beyond the
/// terminator.
pub proof fn lemma_rows_independent(
    a: Seq<Seq<Pixel>>,
    b: Seq<Seq<Pixel>>,
    ct: ColourType,
    et: EscapeType,
    min_alpha: u8,
    solid: bool,
    term: Seq<char>,
)
    ensures
        encode_grid_spec(a + b, ct, et, min_alpha, solid, term) == encode_grid_spec(
            a,
            ct,
            et,
            min_alpha,
            solid,
            term,
        ) + encode_grid_spec(b, ct, et, min_alpha, solid, term),
{
    lemma_rows_concat_from(a, b, 0, ct, et, min_alpha, solid, term);
}

/// The height handed to the resampler: the requested one where given, else
/// the source's native height, unscaled.
pub fn resize_height(requested: Option<u32>, native_height: u32) -> (h: u32)
    ensures
        requested matches Some(v) ==> h == v,
        requested is None ==> h == native_height,
{
    match requested {
        Some(v) => v,
        None => native_height,
    }
}

} // verus!
