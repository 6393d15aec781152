//! The caption font: the loaded glyph data and the drawing parameters the
//! compositor reads.
//!
//! The glyph data and the rendering scale are values of rusttype, opaque
//! here; measuring text and blending glyphs onto a frame are the only two
//! operations that touch them, and each sits behind a trusted wrapper. The
//! line height, colours and anchor position are plain values the verified
//! compositing logic works with.

use vstd::prelude::*;

use crate::frame::{Color, Frame};

verus! {

#[verifier::external_type_specification]
#[verifier::external_body]
pub struct ExRusttypeFont<'a>(rusttype::Font<'a>);

#[verifier::external_type_specification]
#[verifier::external_body]
pub struct ExRusttypeScale(rusttype::Scale);

/// The caption font and its drawing parameters.
pub struct CaptionFont {
    /// Loaded glyph data.
    pub font: rusttype::Font<'static>,
    /// Rendering scale, the font size on both axes.
    pub scale: rusttype::Scale,
    /// The caption line height in pixels: the vertical font size the scale
    /// was built from, as the caption box and line offsets use it.
    pub height: u32,
    /// Glyph colour.
    pub color: Color,
    /// Anchor position of the caption box, `(x, y)`.
    pub pos: (i32, i32),
    /// Colour of the box painted behind the caption text.
    pub background_color: Color,
}

/// Relies on imageproc's `text_size`: the horizontal extent of `text`
/// rendered with `font` at `scale`. Nothing is assumed of the value; a
/// negative extent reads as `None`.
#[verifier::external_body]
pub fn text_width(scale: &rusttype::Scale, font: &rusttype::Font<'static>, text: &str) -> (r:
    Option<u32>)
{
    let (w, _h) = imageproc::drawing::text_size(*scale, font, text);
    u32::try_from(w).ok()
}

/// Relies on imageproc's `draw_text_mut`, which blends glyphs onto the
/// canvas in place and leaves its dimensions unchanged, and on the raw
/// buffer round-trip through `ImageBuffer::from_raw` / `into_raw`, which
/// preserves the three-bytes-per-pixel layout.
#[verifier::external_body]
pub fn draw_text(image: &mut Frame, font: &CaptionFont, x: i32, y: i32, text: &str)
    requires
        old(image).wf(),
    ensures
        final(image).wf(),
        final(image).width == old(image).width,
        final(image).height == old(image).height,
{
    let data = core::mem::take(&mut image.data);
    let mut buffer = image::RgbImage::from_raw(image.width, image.height, data).unwrap();
    imageproc::drawing::draw_text_mut(
        &mut buffer,
        image::Rgb([font.color.red, font.color.green, font.color.blue]),
        x,
        y,
        font.scale,
        &font.font,
        text,
    );
    image.data = buffer.into_raw();
}

} // verus!
