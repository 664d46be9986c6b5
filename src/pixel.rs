//! Colours and pixels: a coloured glyph of at most two characters at a
//! terminal cell, and its escape-sequence form.
use vstd::prelude::*;
use crate::ansi::{decimal_string, fg_rgb, fg_seq, goto, goto_seq, reset, reset_seq};

verus! {

/// The glyph a pixel gets when none is given: two full blocks, which fill one
/// square-looking cell on most terminals.
pub const PX: &'static str = "██";

/// The longest glyph a pixel may hold, in characters.
pub const MAX_GLYPH_LEN: usize = 2;

/// The default glyph as characters.
pub open spec fn default_glyph() -> Seq<char> {
    seq!['█', '█']
}

/// Relies on rand's `random::<u8>`, drawn from the thread-local generator:
/// any byte at all.
#[verifier::external_body]
fn random_byte() -> (b: u8) {
    rand::random::<u8>()
}

/// Relies on rand's `Rng::gen_range` over `0..bound` with the thread-local
/// generator: it panics on an empty range and otherwise returns a value in it.
#[verifier::external_body]
fn random_below(bound: u16) -> (r: u16)
    requires
        bound > 0,
    ensures
        r < bound,
{
    rand::Rng::gen_range(&mut rand::thread_rng(), 0..bound)
}

/// An RGB colour.
#[derive(Clone, Copy, Debug, PartialEq, Eq, Structural)]
pub struct Color {
    pub r: u8,
    pub g: u8,
    pub b: u8,
}

impl Color {
    pub fn new(r: u8, g: u8, b: u8) -> (c: Color)
        ensures
            c == (Color { r, g, b }),
    {
        Color { r, g, b }
    }

    /// A colour with three independent random components.
    pub fn random() -> (c: Color) {
        let r = random_byte();
        let g = random_byte();
        let b = random_byte();
        Color { r, g, b }
    }

    /// Overwrites the three components with random bytes and hands the colour
    /// back for chaining.
    pub fn randomize(&mut self) -> (r: &mut Self)
        ensures
            *final(self) == *final(r),
    {
        self.r = random_byte();
        self.g = random_byte();
        self.b = random_byte();
        self
    }

    /// The escape sequence that selects this colour as the foreground.
    pub open spec fn fg_view(self) -> Seq<char> {
        fg_seq(self.r, self.g, self.b)
    }
}

impl From<(u8, u8, u8)> for Color {
    fn from(c: (u8, u8, u8)) -> (r: Color) {
        Color { r: c.0, g: c.1, b: c.2 }
    }
}

impl vstd::std_specs::convert::FromSpecImpl<(u8, u8, u8)> for Color {
    open spec fn obeys_from_spec() -> bool {
        true
    }

    open spec fn from_spec(c: (u8, u8, u8)) -> Color {
        Color { r: c.0, g: c.1, b: c.2 }
    }
}

/// Why a pixel could not be built.
#[derive(Clone, Copy, Debug, PartialEq, Eq, Structural)]
pub enum PixelError {
    /// The glyph is longer than two characters.
    GlyphTooLong,
}

/// A coloured glyph at a terminal cell. Two pixels are equal when they stand
/// at the same cell, whatever their colours and glyphs.
#[derive(Clone, Copy, Debug)]
pub struct Pixel {
    /// The characters drawn; `wf` asks for at most two of them.
    pub texture: &'static str,
    pub color: Color,
    pub x: u16,
    pub y: u16,
}

impl Pixel {
    /// The characters the pixel draws.
    pub open spec fn glyph_view(self) -> Seq<char> {
        self.texture@
    }

    /// The glyph holds at most two characters.
    pub open spec fn wf(self) -> bool {
        self.glyph_view().len() <= MAX_GLYPH_LEN
    }

    /// The pixel can be drawn: one can be added to each coordinate.
    pub open spec fn drawable(self) -> bool {
        self.x < u16::MAX && self.y < u16::MAX
    }

    /// What `to_string` produces: move to the cell, set the colour, draw the
    /// glyph, reset the style.
    pub open spec fn render_view(self) -> Seq<char> {
        goto_seq(self.x as nat, self.y as nat) + self.color.fg_view() + self.glyph_view()
            + reset_seq()
    }

    /// A pixel with the default glyph and a random colour.
    pub fn at(x: u16, y: u16) -> (p: Pixel)
        ensures
            p.x == x,
            p.y == y,
            p.glyph_view() == default_glyph(),
            p.wf(),
    {
        proof {
            reveal_strlit("██");
        }
        Pixel { texture: PX, color: Color::random(), x, y }
    }

    /// A pixel with the default glyph.
    pub fn new(x: u16, y: u16, color: Color) -> (p: Pixel)
        ensures
            p.x == x,
            p.y == y,
            p.color == color,
            p.glyph_view() == default_glyph(),
            p.wf(),
    {
        proof {
            reveal_strlit("██");
        }
        Pixel { texture: PX, color, x, y }
    }

    /// A pixel with the default glyph and the colour `(r, g, b)`.
    pub fn from_rgb(x: u16, y: u16, r: u8, g: u8, b: u8) -> (p: Pixel)
        ensures
            p.x == x,
            p.y == y,
            p.color == (Color { r, g, b }),
            p.glyph_view() == default_glyph(),
            p.wf(),
    {
        Pixel::new(x, y, Color::new(r, g, b))
    }

    /// A pixel with a glyph of the caller's; a glyph of more than two
    /// characters is refused, never cut short.
    pub fn with_glyph(x: u16, y: u16, color: Color, glyph: &'static str) -> (res: Result<
        Pixel,
        PixelError,
    >)
        ensures
            glyph@.len() <= MAX_GLYPH_LEN <==> res is Ok,
            res is Err ==> res == Err::<Pixel, PixelError>(PixelError::GlyphTooLong),
            res matches Ok(p) ==> p.x == x && p.y == y && p.color == color && p.glyph_view()
                == glyph@ && p.wf(),
    {
        if glyph.unicode_len() > MAX_GLYPH_LEN {
            Err(PixelError::GlyphTooLong)
        } else {
            Ok(Pixel { texture: glyph, color, x, y })
        }
    }

    /// The glyph the pixel draws.
    pub fn glyph(&self) -> (g: &'static str)
        ensures
            g@ == self.glyph_view(),
    {
        self.texture
    }

    /// Moves the pixel to a random cell with `x < console_w` and
    /// `y < console_h`, and hands it back for chaining.
    pub fn randomize_position(&mut self, console_w: u16, console_h: u16) -> (r: &mut Self)
        requires
            console_w > 0,
            console_h > 0,
        ensures
            (*r).x < console_w,
            (*r).y < console_h,
            (*r).color == old(self).color,
            (*r).glyph_view() == old(self).glyph_view(),
            *final(self) == *final(r),
    {
        self.x = random_below(console_w);
        self.y = random_below(console_h);
        self
    }

    /// The escape-sequence text that draws the pixel; it is built anew on
    /// every call.
    pub fn to_string(&self) -> (s: String)
        requires
            self.drawable(),
        ensures
            s@ == self.render_view(),
    {
        let mut s = goto(self.x, self.y);
        let color = fg_rgb(self.color.r, self.color.g, self.color.b);
        s.append(color.as_str());
        s.append(self.texture);
        let rst = reset();
        s.append(rst.as_str());
        s
    }
}

impl PartialEq for Pixel {
    fn eq(&self, other: &Pixel) -> (r: bool)
        ensures
            r == (self.x == other.x && self.y == other.y),
    {
        self.x == other.x && self.y == other.y
    }
}

impl vstd::std_specs::cmp::PartialEqSpecImpl for Pixel {
    open spec fn obeys_eq_spec() -> bool {
        true
    }

    open spec fn eq_spec(&self, other: &Pixel) -> bool {
        self.x == other.x && self.y == other.y
    }
}

} // verus!
