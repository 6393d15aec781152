//! The compositor: burns the caption bar into a frame and, in diagnostic
//! mode, builds the double-width mean-colour comparison frame; for night
//! instants it synthesizes a solid placeholder instead of reading a source
//! image.

use vstd::prelude::*;

use crate::config::Config;
use crate::font::{draw_text, text_width, CaptionFont};
use crate::frame::{Color, Frame, MAX_PIXELS};
use crate::timecodec::{caption_of, format_caption, MAX_STAMP, MIN_STAMP};

verus! {

/// Decimal digit character of `d`.
pub open spec fn digit_char(d: int) -> char {
    if d == 0 {
        '0'
    } else if d == 1 {
        '1'
    } else if d == 2 {
        '2'
    } else if d == 3 {
        '3'
    } else if d == 4 {
        '4'
    } else if d == 5 {
        '5'
    } else if d == 6 {
        '6'
    } else if d == 7 {
        '7'
    } else if d == 8 {
        '8'
    } else {
        '9'
    }
}

/// Decimal rendering of a non-negative integer, most significant digit
/// first.
pub open spec fn dec_seq(n: int) -> Seq<char>
    decreases n,
{
    if n < 10 {
        seq![digit_char(n)]
    } else {
        dec_seq(n / 10).push(digit_char(n % 10))
    }
}

/// Appends the decimal digit `d` to `s`.
fn push_digit(s: &mut String, d: u8)
    requires
        d < 10,
    ensures
        final(s)@ == old(s)@ + seq![digit_char(d as int)],
{
    let digit = if d == 0 {
        "0"
    } else if d == 1 {
        "1"
    } else if d == 2 {
        "2"
    } else if d == 3 {
        "3"
    } else if d == 4 {
        "4"
    } else if d == 5 {
        "5"
    } else if d == 6 {
        "6"
    } else if d == 7 {
        "7"
    } else if d == 8 {
        "8"
    } else {
        "9"
    };
    proof {
        reveal_strlit("0");
        reveal_strlit("1");
        reveal_strlit("2");
        reveal_strlit("3");
        reveal_strlit("4");
        reveal_strlit("5");
        reveal_strlit("6");
        reveal_strlit("7");
        reveal_strlit("8");
        reveal_strlit("9");
        assert(digit@ =~= seq![digit_char(d as int)]);
    }
    s.append(digit);
}

/// Appends the decimal rendering of `n` to `s`.
fn push_decimal(s: &mut String, n: u8)
    ensures
        final(s)@ == old(s)@ + dec_seq(n as int),
    decreases n,
{
    if n >= 10 {
        push_decimal(s, n / 10);
    }
    push_digit(s, n % 10);
    proof {
        assert(old(s)@ + dec_seq(n as int) =~= s@);
    }
}

/// The debug caption line of a colour: `Rgb([r, g, b])`.
pub open spec fn spec_color_text(color: Color) -> Seq<char> {
    "Rgb(["@ + dec_seq(color.red as int) + ", "@ + dec_seq(color.green as int) + ", "@ + dec_seq(
        color.blue as int,
    ) + "])"@
}

/// Renders a colour for the diagnostic caption, as `Rgb([r, g, b])`.
pub fn color_text(color: &Color) -> (r: String)
    ensures
        r@ == spec_color_text(*color),
{
    let mut s = String::from_str("Rgb([");
    push_decimal(&mut s, color.red);
    s.append(", ");
    push_decimal(&mut s, color.green);
    s.append(", ");
    push_decimal(&mut s, color.blue);
    s.append("])");
    proof {
        assert(s@ =~= spec_color_text(*color));
    }
    s
}

/// Joins caption parts with `", "`: the view of `join2(a, b)` is
/// `a + ", " + b`.
pub fn join2(a: &str, b: &str) -> (r: String)
    ensures
        r@ == a@ + ", "@ + b@,
{
    String::from_str(a).concat(", ").concat(b)
}

/// The caption of the frame due at `stamp`, `<location>, <camera>, <date>`.
pub fn stamp_caption(location: &str, camera: &str, stamp: i64) -> (r: String)
    requires
        MIN_STAMP <= stamp <= MAX_STAMP,
    ensures
        r@ == location@ + ", "@ + camera@ + ", "@ + caption_of(stamp),
{
    let date = format_caption(stamp);
    String::from_str(location).concat(", ").concat(camera).concat(", ").concat(date.as_str())
}

/// Draws one caption line at `pos`: a box of the measured text width and
/// the font's line height in the background colour, then the text over it.
/// Where the text measures to no width, nothing is drawn, as nothing would
/// be legible.
pub fn draw_citing(image: &mut Frame, font: &CaptionFont, pos: (i32, i32), text: &str)
    requires
        old(image).wf(),
    ensures
        final(image).wf(),
        final(image).width == old(image).width,
        final(image).height == old(image).height,
{
    match text_width(&font.scale, &font.font, text) {
        Some(width) => {
            image.fill_rect(pos.0, pos.1, width, font.height, font.background_color);
            draw_text(image, font, pos.0, pos.1, text);
        },
        None => {},
    }
}

/// Whether the configured region of interest fits inside a frame and has
/// pixels to average.
pub open spec fn roi_fits(config: Config, frame: Frame) -> bool {
    &&& config.roi.x + config.roi.width <= frame.width
    &&& config.roi.y + config.roi.height <= frame.height
    &&& config.roi.width * config.roi.height > 0
}

/// Composites the day frame for a decoded source image: burns the caption
/// `<location>, <camera>, <date>` into it, and without diagnostic mode
/// returns it as it then stands. In diagnostic mode the result is instead
/// the double-width comparison frame: its left half is the mean colour of
/// the captioned source's region of interest, its right half the captioned
/// source, and three caption lines are drawn at successive line-height
/// offsets: `<location>, <date>`, a fixed label, and the mean colour's
/// debug rendering.
pub fn generate_image(config: &Config, in_image: &mut Frame, date: &str, forest_green: bool) -> (r:
    Frame)
    requires
        old(in_image).wf(),
        forest_green ==> roi_fits(*config, *old(in_image)),
        forest_green ==> 2 * old(in_image).pixel_count() <= MAX_PIXELS && 2 * old(
            in_image,
        ).width <= u32::MAX,
    ensures
        final(in_image).wf(),
        final(in_image).width == old(in_image).width,
        final(in_image).height == old(in_image).height,
        r.wf(),
        r.width == (if forest_green {
            2 * old(in_image).width
        } else {
            old(in_image).width as int
        }),
        r.height == old(in_image).height,
        !forest_green ==> r.width == final(in_image).width && r.height
            == final(in_image).height && r.data@ == final(in_image).data@,
{
    let caption = join2(config.location.as_str(), config.camera.as_str());
    let caption = join2(caption.as_str(), date);
    draw_citing(in_image, &config.font, config.font.pos, caption.as_str());

    if forest_green {
        let region = in_image.crop(
            config.roi.x,
            config.roi.y,
            config.roi.width,
            config.roi.height,
        );
        let color = region.mean_color();
        let mut image = in_image.compose_diag(color);

        let location_date = join2(config.location.as_str(), date);
        draw_citing(&mut image, &config.font, config.font.pos, location_date.as_str());

        let font_height = config.font.height;
        let pos_y_1: i64 = (config.font.pos.1 as i64) + (font_height as i64);
        let pos_y_2: i64 = (config.font.pos.1 as i64) + 2 * (font_height as i64);
        let title = "Average colour of vegetation";
        if pos_y_1 <= i32::MAX as i64 {
            draw_citing(&mut image, &config.font, (config.font.pos.0, pos_y_1 as i32), title);
        }
        let color_line = color_text(&color);
        if pos_y_2 <= i32::MAX as i64 {
            draw_citing(
                &mut image,
                &config.font,
                (config.font.pos.0, pos_y_2 as i32),
                color_line.as_str(),
            );
        }
        image
    } else {
        Frame {
            width: in_image.width,
            height: in_image.height,
            data: vstd::slice::slice_to_vec(in_image.data.as_slice()),
        }
    }
}

/// Synthesizes the night placeholder frame for the instant `stamp`: a
/// solid frame of the configured night colour at the source dimensions
/// (double width in diagnostic mode), captioned
/// `<location>, <camera>, <date>` at the anchor position.
pub fn generate_night_image(
    config: &Config,
    dimensions: (u32, u32),
    stamp: i64,
    forest_green: bool,
) -> (r: Frame)
    requires
        MIN_STAMP <= stamp <= MAX_STAMP,
        dimensions.0 * dimensions.1 <= MAX_PIXELS,
        forest_green ==> 2 * (dimensions.0 * dimensions.1) <= MAX_PIXELS && 2 * dimensions.0
            <= u32::MAX,
    ensures
        r.wf(),
        r.width == (if forest_green {
            2 * dimensions.0
        } else {
            dimensions.0 as int
        }),
        r.height == dimensions.1,
{
    let width = if forest_green {
        2 * dimensions.0
    } else {
        dimensions.0
    };
    proof {
        if forest_green {
            assert((2 * dimensions.0) * (dimensions.1 as int) == 2 * (dimensions.0
                * dimensions.1)) by (nonlinear_arith);
        }
    }
    let mut image = Frame::filled(width, dimensions.1, config.night_color);
    let caption = stamp_caption(config.location.as_str(), config.camera.as_str(), stamp);
    draw_citing(&mut image, &config.font, config.font.pos, caption.as_str());
    image
}

} // verus!
