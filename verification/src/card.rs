//! The card: a bordered panel with an accent bar along its bottom edge and a
//! label centred in the bar.

use crate::geometry::{wrap_i32, wrap_u32, CornerRadii, Point, Rectangle, Size};
use crate::sequence::Next;
use embedded_graphics::mono_font::MonoFont;
use vstd::prelude::*;

verus! {

/// `embedded_graphics::mono_font::MonoFont`, carried through unread.
#[verifier::external_type_specification]
#[verifier::external_body]
pub struct ExMonoFont<'a>(MonoFont<'a>);

/// The width of the panel's border, in pixels.
pub const BORDER_WIDTH: u32 = 1;

/// The radius of the bar's two bottom corners, in pixels, both ways.
pub const BAR_CORNER_RADIUS: u32 = 6;

/// The bar height of the big preset, in pixels.
pub const BIG_BAR_HEIGHT: u32 = 20;

/// The bar height of the medium preset, in pixels.
pub const MEDIUM_BAR_HEIGHT: u32 = 15;

/// The bar height of the small preset, in pixels.
pub const SMALL_BAR_HEIGHT: u32 = 10;

/// The font of a card's label.
#[derive(Clone, Copy, Debug, PartialEq)]
pub enum CardFont<'a> {
    /// The large preset, ten by twenty pixels a glyph.
    Large,
    /// The medium preset, nine by fifteen pixels a glyph.
    Medium,
    /// The small preset, six by ten pixels a glyph.
    Small,
    /// Any other monospaced font.
    Custom(MonoFont<'a>),
}

/// How a card looks: the height of its accent bar and the font of its label.
#[derive(Clone, Copy, Debug, PartialEq)]
pub struct CardStyle<'a> {
    pub bar_height: u32,
    pub font: CardFont<'a>,
}

impl<'a> CardStyle<'a> {
    /// The big preset with another bar height.
    pub fn with_bar_height(bar_height: u32) -> (style: CardStyle<'a>)
        ensures
            style == (CardStyle { bar_height, font: CardFont::Large }),
    {
        CardStyleBuilder::new().bar_height(bar_height).build()
    }

    /// The big preset with another font.
    pub fn with_font(font: CardFont<'a>) -> (style: CardStyle<'a>)
        ensures
            style == (CardStyle { bar_height: BIG_BAR_HEIGHT, font }),
    {
        CardStyleBuilder::new().font(font).build()
    }
}

impl<'a> Default for CardStyle<'a> {
    /// The big preset.
    fn default() -> (style: Self)
        ensures
            style == (CardStyle { bar_height: BIG_BAR_HEIGHT, font: CardFont::Large }),
    {
        CardStyleBuilder::new().build()
    }
}

/// Builds a [`CardStyle`]: start from a preset, change what differs, then
/// `build`.
#[derive(Clone, Copy, Debug, PartialEq)]
pub struct CardStyleBuilder<'a> {
    pub style: CardStyle<'a>,
}

impl<'a> CardStyleBuilder<'a> {
    /// Starts from the big preset.
    pub fn new() -> (builder: CardStyleBuilder<'a>)
        ensures
            builder.style == (CardStyle { bar_height: BIG_BAR_HEIGHT, font: CardFont::Large }),
    {
        CardStyleBuilder::big()
    }

    /// The big preset: a bar of 20 pixels and the large font.
    pub fn big() -> (builder: CardStyleBuilder<'a>)
        ensures
            builder.style == (CardStyle { bar_height: BIG_BAR_HEIGHT, font: CardFont::Large }),
    {
        CardStyleBuilder { style: CardStyle { bar_height: BIG_BAR_HEIGHT, font: CardFont::Large } }
    }

    /// The medium preset: a bar of 15 pixels and the medium font.
    pub fn medium() -> (builder: CardStyleBuilder<'a>)
        ensures
            builder.style == (CardStyle { bar_height: MEDIUM_BAR_HEIGHT, font: CardFont::Medium }),
    {
        CardStyleBuilder {
            style: CardStyle { bar_height: MEDIUM_BAR_HEIGHT, font: CardFont::Medium },
        }
    }

    /// The small preset: a bar of 10 pixels and the small font.
    pub fn small() -> (builder: CardStyleBuilder<'a>)
        ensures
            builder.style == (CardStyle { bar_height: SMALL_BAR_HEIGHT, font: CardFont::Small }),
    {
        CardStyleBuilder { style: CardStyle { bar_height: SMALL_BAR_HEIGHT, font: CardFont::Small } }
    }

    /// This builder with the bar height replaced.
    pub open spec fn spec_bar_height(self, bar_height: u32) -> CardStyleBuilder<'a> {
        CardStyleBuilder { style: CardStyle { bar_height, font: self.style.font } }
    }

    /// Sets the height of the accent bar, in pixels.
    #[verifier::when_used_as_spec(spec_bar_height)]
    pub fn bar_height(self, bar_height: u32) -> (builder: CardStyleBuilder<'a>)
        ensures
            builder == self.spec_bar_height(bar_height),
    {
        CardStyleBuilder { style: CardStyle { bar_height, font: self.style.font } }
    }

    /// This builder with the font replaced.
    pub open spec fn spec_font(self, font: CardFont<'a>) -> CardStyleBuilder<'a> {
        CardStyleBuilder { style: CardStyle { bar_height: self.style.bar_height, font } }
    }

    /// Sets the font of the label.
    #[verifier::when_used_as_spec(spec_font)]
    pub fn font(self, font: CardFont<'a>) -> (builder: CardStyleBuilder<'a>)
        ensures
            builder == self.spec_font(font),
    {
        CardStyleBuilder { style: CardStyle { bar_height: self.style.bar_height, font } }
    }

    /// The style that the builder holds.
    pub open spec fn spec_build(self) -> CardStyle<'a> {
        self.style
    }

    /// Hands out the finished style.
    #[verifier::when_used_as_spec(spec_build)]
    pub fn build(self) -> (style: CardStyle<'a>)
        ensures
            style == self.spec_build(),
    {
        self.style
    }

    /// The two setters act on different fields, so the order in which they
    /// are applied makes no difference to the style that is built.
    pub proof fn setters_commute(self, font: CardFont<'a>, bar_height: u32)
        ensures
            self.font(font).bar_height(bar_height).build() == self.bar_height(bar_height).font(
                font,
            ).build(),
            self.font(font).bar_height(bar_height).build() == (CardStyle { bar_height, font }),
    {
    }
}

/// One step of drawing a card.
#[derive(Debug, PartialEq)]
pub enum Primitive<'a, C> {
    /// A rectangle filled with `color`.
    Fill { area: Rectangle, color: C },
    /// The outline of a rectangle, `width` pixels wide, in `color`.
    Stroke { area: Rectangle, color: C, width: u32 },
    /// A rectangle with rounded corners, filled with `color`.
    RoundedFill { area: Rectangle, radii: CornerRadii, color: C },
    /// `text` in `font` and `color`, centred in `area` both ways.
    Label { area: Rectangle, text: &'a str, font: CardFont<'a>, color: C },
}

/// A card to be drawn once.
#[derive(Debug, PartialEq)]
pub struct Card<'a, C> {
    pub fg_color: C,
    pub bg_color: C,
    pub top_left: Point,
    pub size: Size,
    pub text: &'a str,
    pub style: CardStyle<'a>,
}

impl<'a, C> Card<'a, C> {
    pub fn new(
        fg_color: C,
        bg_color: C,
        top_left: Point,
        size: Size,
        text: &'a str,
        style: CardStyle<'a>,
    ) -> (card: Self)
        ensures
            card == (Card { fg_color, bg_color, top_left, size, text, style }),
    {
        Card { fg_color, bg_color, top_left, size, text, style }
    }

    /// The panel: the card without the rows of its bar. Where the bar is
    /// higher than the card, the height wraps around.
    pub open spec fn panel_area(self) -> Rectangle {
        Rectangle {
            top_left: self.top_left,
            size: Size {
                width: self.size.width,
                height: wrap_u32(self.size.height - self.style.bar_height) as u32,
            },
        }
    }

    /// The bar: as wide as the card, `bar_height` rows high, its top row
    /// `size.height - bar_height` rows below the card's top row. Where that
    /// row lies outside the range of `i32`, it wraps around.
    pub open spec fn bar_area(self) -> Rectangle {
        Rectangle {
            top_left: Point {
                x: self.top_left.x,
                y: wrap_i32(self.top_left.y + self.size.height - self.style.bar_height) as i32,
            },
            size: Size { width: self.size.width, height: self.style.bar_height },
        }
    }

    /// The steps that draw the card, in the order in which they are to be
    /// carried out: the panel's fill, the panel's border, the bar, the label.
    pub open spec fn plan(self) -> Seq<Primitive<'a, C>> {
        seq![
            Primitive::Fill { area: self.panel_area(), color: self.bg_color },
            Primitive::Stroke { area: self.panel_area(), color: self.fg_color, width: BORDER_WIDTH },
            Primitive::RoundedFill {
                area: self.bar_area(),
                radii: CornerRadii::bottom_only(
                    Size { width: BAR_CORNER_RADIUS, height: BAR_CORNER_RADIUS },
                ),
                color: self.fg_color,
            },
            Primitive::Label {
                area: self.bar_area(),
                text: self.text,
                font: self.style.font,
                color: self.bg_color,
            },
        ]
    }

    /// Arranges the card into its four drawing steps. Later steps paint over
    /// earlier ones, so they are to be carried out in this order, and none
    /// after one that failed.
    pub fn primitives(&self) -> (steps: Vec<Primitive<'a, C>>) where C: Copy
        ensures
            steps@ == self.plan(),
            steps@.len() == 4,
            steps@[0] is Fill,
            steps@[1] is Stroke,
            steps@[2] is RoundedFill,
            steps@[3] is Label,
    {
        let panel = Rectangle::new(
            self.top_left,
            Size::new(self.size.width, rows_left(self.size.height, self.style.bar_height)),
        );
        let bar = Rectangle::new(
            Point::new(
                self.top_left.x,
                row_below(self.top_left.y, self.size.height, self.style.bar_height),
            ),
            Size::new(self.size.width, self.style.bar_height),
        );
        let radii = CornerRadii::bottom(Size::new(BAR_CORNER_RADIUS, BAR_CORNER_RADIUS));
        let mut steps: Vec<Primitive<'a, C>> = Vec::new();
        steps.push(Primitive::Fill { area: panel, color: self.bg_color });
        steps.push(Primitive::Stroke { area: panel, color: self.fg_color, width: BORDER_WIDTH });
        steps.push(Primitive::RoundedFill { area: bar, radii, color: self.fg_color });
        steps.push(
            Primitive::Label {
                area: bar,
                text: self.text,
                font: self.style.font,
                color: self.bg_color,
            },
        );
        assert(steps@ =~= self.plan());
        steps
    }

    /// What comes next in drawing the card when `done` of its steps were
    /// painted and the last of them ended as `last` says (`Ok` before the
    /// first): after a failure nothing but its error, as it came; else the
    /// next step of the plan; after the last step, the end.
    pub open spec fn next<E>(self, done: int, last: Result<(), E>) -> Next<Primitive<'a, C>, E> {
        match last {
            Err(error) => Next::Failed(error),
            Ok(_) => if 0 <= done < self.plan().len() {
                Next::Paint(self.plan()[done])
            } else {
                Next::Finished
            },
        }
    }

    /// Draws the card, one step at a call: says what is to be done after
    /// `done` steps were painted and the last of them ended as `last`
    /// (`Ok(())` before the first). The caller paints the step it is given
    /// and asks again with its outcome, until the answer is `Finished` or
    /// `Failed`. So the four steps are painted in the order of the plan, none
    /// after one that failed, and a failure comes back as the painter gave
    /// it.
    pub fn step<E>(&self, done: usize, last: Result<(), E>) -> (next: Next<Primitive<'a, C>, E>) where
        C: Copy,

        ensures
            next == self.next(done as int, last),
    {
        match last {
            Err(error) => Next::Failed(error),
            Ok(_) => {
                let mut steps = self.primitives();
                if done < steps.len() {
                    Next::Paint(steps.remove(done))
                } else {
                    Next::Finished
                }
            },
        }
    }

    /// A drawing of the card in which no step fails paints the four steps
    /// of the plan in order and then succeeds. Once a step has failed with
    /// `error`, no step is painted any more, however many were done, and the
    /// drawing fails with `error`.
    pub proof fn drawing_follows_plan<E>(self, error: E)
        ensures
            forall|done: int|
                0 <= done < 4 ==> #[trigger] self.next(done, Ok::<(), E>(())) == Next::<
                    Primitive<'a, C>,
                    E,
                >::Paint(self.plan()[done]),
            self.next(4, Ok::<(), E>(())) == Next::<Primitive<'a, C>, E>::Finished,
            forall|done: int| #[trigger]
                self.next(done, Err(error)) == Next::<Primitive<'a, C>, E>::Failed(error),
    {
    }

    /// Where the bar is no higher than the card, and the card's last row lies
    /// in the range of `i32`, panel and bar share the card's rows between
    /// them: the bar takes the bottom `bar_height` rows at the card's full
    /// width, the panel the rows above it.
    pub proof fn bar_closes_panel(self)
        requires
            self.style.bar_height <= self.size.height,
            self.top_left.y + self.size.height - self.style.bar_height <= i32::MAX,
        ensures
            self.panel_area().top_left == self.top_left,
            self.panel_area().size.width == self.size.width,
            self.bar_area().size.width == self.size.width,
            self.bar_area().top_left.x == self.top_left.x,
            self.panel_area().size.height + self.bar_area().size.height == self.size.height,
            self.bar_area().top_left.y == self.top_left.y + self.panel_area().size.height,
    {
    }
}

/// The rows that remain of `height` rows when `taken` rows are taken away,
/// wrapping around where more are taken than there are.
fn rows_left(height: u32, taken: u32) -> (left: u32)
    ensures
        left == wrap_u32(height - taken),
{
    if height >= taken {
        height - taken
    } else {
        u32::MAX - (taken - height) + 1
    }
}

/// The row `down - up` rows below row `y`, wrapping around where it lies
/// outside the range of `i32`.
fn row_below(y: i32, down: u32, up: u32) -> (row: i32)
    ensures
        row == wrap_i32(y + down - up),
{
    let exact: i64 = y as i64 + down as i64 - up as i64;
    if exact > i32::MAX as i64 {
        (exact - 0x1_0000_0000) as i32
    } else if exact < i32::MIN as i64 {
        (exact + 0x1_0000_0000) as i32
    } else {
        exact as i32
    }
}

} // verus!
