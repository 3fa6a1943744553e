//! The typefaces of a measurement, and the pixels that a run of text in one
//! of them covers.

use crate::geometry::{Point, Rectangle, Size};
use embedded_graphics::geometry::Dimensions;
use embedded_graphics::pixelcolor::BinaryColor;
use embedded_graphics::text::Text;
use u8g2_fonts::fonts::{
    u8g2_font_logisoso16_tf, u8g2_font_logisoso18_tf, u8g2_font_logisoso22_tf,
    u8g2_font_logisoso42_tf,
};
use u8g2_fonts::U8g2TextStyle;
use vstd::prelude::*;
use vstd::string::StrSliceExecFns;

verus! {

/// The furthest that one glyph moves the pen, in pixels.
pub const PEN_STEP: i32 = 128;

/// The room that measuring needs around the pen apart from its way: a
/// glyph's box, at most 255 pixels wide and high, set off from the pen by at
/// most 128 pixels, and a line's height below the last line.
pub const GLYPH_ROOM: i32 = 512;

/// The longest text that can be measured anywhere: a longer one would take
/// the pen out of the range of `i32` wherever it started.
pub const MAX_TEXT_LENGTH: usize = 0x00ff_fffb;

/// A typeface in which a measurement sets text: Logisoso with the full
/// character set, in one of four heights.
#[derive(Clone, Copy, Debug, PartialEq, Eq, Structural)]
pub enum Typeface {
    /// 42 pixels high.
    Logisoso42,
    /// 22 pixels high.
    Logisoso22,
    /// 18 pixels high.
    Logisoso18,
    /// 16 pixels high.
    Logisoso16,
}

/// The bounding box of `text` set in `face` with the start of its baseline
/// at `origin`: the rectangle around the boxes of its glyphs, and an empty
/// rectangle where none of them has a box.
pub uninterp spec fn text_extent(face: Typeface, text: Seq<char>, origin: Point) -> Rectangle;

/// The room that measuring a text of `length` characters needs on every
/// side of its origin: the way of the pen, which moves by at most
/// `PEN_STEP` pixels a character, along the line or down to the next, and
/// the room of a glyph.
pub open spec fn room(length: nat) -> int {
    PEN_STEP * length + GLYPH_ROOM
}

/// Whether `text` can be measured at `origin`: whether there is room for it
/// in the range of `i32` on every side of the origin. This is the one
/// limit on measuring.
pub open spec fn measurable(text: Seq<char>, origin: Point) -> bool {
    &&& i32::MIN + room(text.len()) <= origin.x <= i32::MAX - room(text.len())
    &&& i32::MIN + room(text.len()) <= origin.y <= i32::MAX - room(text.len())
}

/// Calls `bounding_box` of `embedded_graphics::text::Text` on `text` at
/// `origin`, in the `u8g2_fonts` style of Logisoso 42. The result is taken to
/// depend on the characters and the origin alone. A character moves the pen
/// by at most 128 pixels, along the line or down by a line's height; a
/// glyph's box is at most 255 pixels wide and high and at most 128 pixels
/// off the pen. So with the room required here no coordinate leaves the
/// range of `i32`.
#[verifier::external_body]
fn bounding_box_42(text: &str, origin: Point) -> (extent: Rectangle)
    requires
        measurable(text@, origin),
    ensures
        extent == text_extent(Typeface::Logisoso42, text@, origin),
{
    let at = embedded_graphics::geometry::Point::new(origin.x, origin.y);
    let style = U8g2TextStyle::new(u8g2_font_logisoso42_tf, BinaryColor::On);
    let found = Text::new(text, at, style).bounding_box();
    Rectangle {
        top_left: Point { x: found.top_left.x, y: found.top_left.y },
        size: Size { width: found.size.width, height: found.size.height },
    }
}

/// Calls `bounding_box` of `embedded_graphics::text::Text` on `text` at
/// `origin`, in the `u8g2_fonts` style of Logisoso 22. The result is taken to
/// depend on the characters and the origin alone. A character moves the pen
/// by at most 128 pixels, along the line or down by a line's height; a
/// glyph's box is at most 255 pixels wide and high and at most 128 pixels
/// off the pen. So with the room required here no coordinate leaves the
/// range of `i32`.
#[verifier::external_body]
fn bounding_box_22(text: &str, origin: Point) -> (extent: Rectangle)
    requires
        measurable(text@, origin),
    ensures
        extent == text_extent(Typeface::Logisoso22, text@, origin),
{
    let at = embedded_graphics::geometry::Point::new(origin.x, origin.y);
    let style = U8g2TextStyle::new(u8g2_font_logisoso22_tf, BinaryColor::On);
    let found = Text::new(text, at, style).bounding_box();
    Rectangle {
        top_left: Point { x: found.top_left.x, y: found.top_left.y },
        size: Size { width: found.size.width, height: found.size.height },
    }
}

/// Calls `bounding_box` of `embedded_graphics::text::Text` on `text` at
/// `origin`, in the `u8g2_fonts` style of Logisoso 18. The result is taken to
/// depend on the characters and the origin alone. A character moves the pen
/// by at most 128 pixels, along the line or down by a line's height; a
/// glyph's box is at most 255 pixels wide and high and at most 128 pixels
/// off the pen. So with the room required here no coordinate leaves the
/// range of `i32`.
#[verifier::external_body]
fn bounding_box_18(text: &str, origin: Point) -> (extent: Rectangle)
    requires
        measurable(text@, origin),
    ensures
        extent == text_extent(Typeface::Logisoso18, text@, origin),
{
    let at = embedded_graphics::geometry::Point::new(origin.x, origin.y);
    let style = U8g2TextStyle::new(u8g2_font_logisoso18_tf, BinaryColor::On);
    let found = Text::new(text, at, style).bounding_box();
    Rectangle {
        top_left: Point { x: found.top_left.x, y: found.top_left.y },
        size: Size { width: found.size.width, height: found.size.height },
    }
}

/// Calls `bounding_box` of `embedded_graphics::text::Text` on `text` at
/// `origin`, in the `u8g2_fonts` style of Logisoso 16. The result is taken to
/// depend on the characters and the origin alone. A character moves the pen
/// by at most 128 pixels, along the line or down by a line's height; a
/// glyph's box is at most 255 pixels wide and high and at most 128 pixels
/// off the pen. So with the room required here no coordinate leaves the
/// range of `i32`.
#[verifier::external_body]
fn bounding_box_16(text: &str, origin: Point) -> (extent: Rectangle)
    requires
        measurable(text@, origin),
    ensures
        extent == text_extent(Typeface::Logisoso16, text@, origin),
{
    let at = embedded_graphics::geometry::Point::new(origin.x, origin.y);
    let style = U8g2TextStyle::new(u8g2_font_logisoso16_tf, BinaryColor::On);
    let found = Text::new(text, at, style).bounding_box();
    Rectangle {
        top_left: Point { x: found.top_left.x, y: found.top_left.y },
        size: Size { width: found.size.width, height: found.size.height },
    }
}

/// Whether `text` can be measured at `origin`.
pub fn is_measurable(text: &str, origin: Point) -> (yes: bool)
    ensures
        yes == measurable(text@, origin),
{
    let length = text.unicode_len();
    if length > MAX_TEXT_LENGTH {
        return false;
    }
    let room: i64 = PEN_STEP as i64 * length as i64 + GLYPH_ROOM as i64;
    let least: i64 = i32::MIN as i64 + room;
    let most: i64 = i32::MAX as i64 - room;
    least <= origin.x as i64 && origin.x as i64 <= most && least <= origin.y as i64
        && origin.y as i64 <= most
}

/// The bounding box of `text` set in `face` at `origin`, where the text can
/// be measured there; `None` otherwise.
pub fn extent(face: Typeface, text: &str, origin: Point) -> (found: Option<Rectangle>)
    ensures
        found == if measurable(text@, origin) {
            Some(text_extent(face, text@, origin))
        } else {
            None
        },
{
    if is_measurable(text, origin) {
        Some(
            match face {
                Typeface::Logisoso42 => bounding_box_42(text, origin),
                Typeface::Logisoso22 => bounding_box_22(text, origin),
                Typeface::Logisoso18 => bounding_box_18(text, origin),
                Typeface::Logisoso16 => bounding_box_16(text, origin),
            },
        )
    } else {
        None
    }
}

/// A text longer than `MAX_TEXT_LENGTH` can be measured nowhere, a shorter
/// one at the origin of the plane, and an empty one everywhere but in the
/// outermost `GLYPH_ROOM` pixels of the range of `i32`.
pub proof fn room_for_text(text: Seq<char>, origin: Point)
    ensures
        text.len() > MAX_TEXT_LENGTH ==> !measurable(text, origin),
        text.len() <= MAX_TEXT_LENGTH ==> measurable(text, Point { x: 0, y: 0 }),
        text.len() == 0 ==> (measurable(text, origin) <==> {
            &&& i32::MIN + GLYPH_ROOM <= origin.x <= i32::MAX - GLYPH_ROOM
            &&& i32::MIN + GLYPH_ROOM <= origin.y <= i32::MAX - GLYPH_ROOM
        }),
{
}

} // verus!
