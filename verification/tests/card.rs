use embedded_graphics::mono_font::ascii::FONT_6X13;
use embedded_graphics::mono_font::iso_8859_10::FONT_10X20;
use widget::card::{
    Card, CardFont, CardStyle, CardStyleBuilder, Primitive, BAR_CORNER_RADIUS, BIG_BAR_HEIGHT,
    BORDER_WIDTH, MEDIUM_BAR_HEIGHT, SMALL_BAR_HEIGHT,
};
use widget::geometry::{CornerRadii, Point, Rectangle, Size};
use widget::sequence::Next;

const FOREGROUND: u8 = 1;
const BACKGROUND: u8 = 0;

fn rectangle(x: i32, y: i32, width: u32, height: u32) -> Rectangle {
    Rectangle::new(Point::new(x, y), Size::new(width, height))
}

fn kitchen(style: CardStyle<'static>) -> Card<'static, u8> {
    Card::new(FOREGROUND, BACKGROUND, Point::new(0, 150), Size::new(132, 150), "Kuchnia", style)
}

fn bottom_rounded() -> CornerRadii {
    CornerRadii {
        top_left: Size::new(0, 0),
        top_right: Size::new(0, 0),
        bottom_right: Size::new(6, 6),
        bottom_left: Size::new(6, 6),
    }
}

#[test]
fn card_keeps_what_it_was_made_of() {
    let style = CardStyleBuilder::small().build();
    let card = Card::new(7u8, 9u8, Point::new(3, 4), Size::new(5, 6), "Balkon", style);
    assert_eq!(card.fg_color, 7);
    assert_eq!(card.bg_color, 9);
    assert_eq!(card.top_left, Point::new(3, 4));
    assert_eq!(card.size, Size::new(5, 6));
    assert_eq!(card.text, "Balkon");
    assert_eq!(card.style, style);
}

#[test]
fn card_draws_four_primitives_in_order() {
    let steps = kitchen(CardStyleBuilder::big().build()).primitives();
    assert_eq!(steps.len(), 4);
    assert!(matches!(steps[0], Primitive::Fill { .. }));
    assert!(matches!(steps[1], Primitive::Stroke { .. }));
    assert!(matches!(steps[2], Primitive::RoundedFill { .. }));
    assert!(matches!(steps[3], Primitive::Label { .. }));
}

#[test]
fn card_draws_four_primitives_whatever_its_shape() {
    for (size, bar_height) in [
        (Size::new(0, 0), 0),
        (Size::new(0, 0), 20),
        (Size::new(132, 150), 150),
        (Size::new(132, 150), 151),
        (Size::new(u32::MAX, u32::MAX), u32::MAX),
    ] {
        for y in [i32::MIN, -1, 0, 150, i32::MAX] {
            let style = CardStyle::with_bar_height(bar_height);
            let card = Card::new(FOREGROUND, BACKGROUND, Point::new(0, y), size, "", style);
            let steps = card.primitives();
            assert_eq!(steps.len(), 4);
            assert!(matches!(steps[0], Primitive::Fill { .. }));
            assert!(matches!(steps[1], Primitive::Stroke { .. }));
            assert!(matches!(steps[2], Primitive::RoundedFill { .. }));
            assert!(matches!(steps[3], Primitive::Label { .. }));
        }
    }
}

#[test]
fn big_card_has_its_bar_on_the_bottom_twenty_rows() {
    let steps = kitchen(CardStyleBuilder::big().build()).primitives();
    let panel = rectangle(0, 150, 132, 130);
    let bar = rectangle(0, 280, 132, 20);
    assert_eq!(steps[0], Primitive::Fill { area: panel, color: BACKGROUND });
    assert_eq!(steps[1], Primitive::Stroke { area: panel, color: FOREGROUND, width: 1 });
    assert_eq!(
        steps[2],
        Primitive::RoundedFill { area: bar, radii: bottom_rounded(), color: FOREGROUND }
    );
    assert_eq!(
        steps[3],
        Primitive::Label { area: bar, text: "Kuchnia", font: CardFont::Large, color: BACKGROUND }
    );
    assert_eq!(panel.size.height + bar.size.height, 150);
    assert_eq!(bar.top_left.y + 20, 150 + 150);
}

#[test]
fn medium_and_small_cards_have_lower_bars() {
    let medium = kitchen(CardStyleBuilder::medium().build()).primitives();
    assert_eq!(medium[0], Primitive::Fill { area: rectangle(0, 150, 132, 135), color: BACKGROUND });
    assert_eq!(
        medium[3],
        Primitive::Label {
            area: rectangle(0, 285, 132, 15),
            text: "Kuchnia",
            font: CardFont::Medium,
            color: BACKGROUND,
        }
    );
    let small = kitchen(CardStyleBuilder::small().build()).primitives();
    assert_eq!(small[1], Primitive::Stroke { area: rectangle(0, 150, 132, 140), color: FOREGROUND, width: 1 });
    assert_eq!(
        small[2],
        Primitive::RoundedFill {
            area: rectangle(0, 290, 132, 10),
            radii: bottom_rounded(),
            color: FOREGROUND,
        }
    );
}

#[test]
fn label_is_in_the_colour_of_the_panel_and_bar_in_that_of_the_border() {
    let card = Card::new("ink", "paper", Point::new(1, 2), Size::new(30, 40), "x", CardStyle::default());
    let steps = card.primitives();
    assert!(matches!(steps[0], Primitive::Fill { color: "paper", .. }));
    assert!(matches!(steps[1], Primitive::Stroke { color: "ink", .. }));
    assert!(matches!(steps[2], Primitive::RoundedFill { color: "ink", .. }));
    assert!(matches!(steps[3], Primitive::Label { color: "paper", .. }));
}

#[test]
fn card_with_no_bar_is_all_panel() {
    let card = Card::new(FOREGROUND, BACKGROUND, Point::new(10, 20), Size::new(30, 40), "", CardStyle::with_bar_height(0));
    let steps = card.primitives();
    assert_eq!(steps[0], Primitive::Fill { area: rectangle(10, 20, 30, 40), color: BACKGROUND });
    assert_eq!(
        steps[2],
        Primitive::RoundedFill { area: rectangle(10, 60, 30, 0), radii: bottom_rounded(), color: FOREGROUND }
    );
}

#[test]
fn card_that_is_all_bar_has_an_empty_panel() {
    let card = Card::new(FOREGROUND, BACKGROUND, Point::new(10, 20), Size::new(30, 40), "", CardStyle::with_bar_height(40));
    let steps = card.primitives();
    assert_eq!(steps[0], Primitive::Fill { area: rectangle(10, 20, 30, 0), color: BACKGROUND });
    assert_eq!(
        steps[2],
        Primitive::RoundedFill { area: rectangle(10, 20, 30, 40), radii: bottom_rounded(), color: FOREGROUND }
    );
}

#[test]
fn card_of_no_size_is_laid_out_all_the_same() {
    let card = Card::new(FOREGROUND, BACKGROUND, Point::new(5, 5), Size::new(0, 0), "", CardStyle::with_bar_height(0));
    let steps = card.primitives();
    assert_eq!(steps[0], Primitive::Fill { area: rectangle(5, 5, 0, 0), color: BACKGROUND });
    assert_eq!(steps[1], Primitive::Stroke { area: rectangle(5, 5, 0, 0), color: FOREGROUND, width: 1 });
    assert_eq!(
        steps[3],
        Primitive::Label { area: rectangle(5, 5, 0, 0), text: "", font: CardFont::Large, color: BACKGROUND }
    );
}

#[test]
fn bar_higher_than_the_card_wraps_the_panel_around() {
    let card = Card::new(FOREGROUND, BACKGROUND, Point::new(0, 100), Size::new(50, 10), "", CardStyle::with_bar_height(15));
    let steps = card.primitives();
    assert_eq!(steps[0], Primitive::Fill { area: rectangle(0, 100, 50, u32::MAX - 4), color: BACKGROUND });
    assert_eq!(
        steps[2],
        Primitive::RoundedFill { area: rectangle(0, 95, 50, 15), radii: bottom_rounded(), color: FOREGROUND }
    );
    assert_eq!(10u32.wrapping_sub(15), u32::MAX - 4);
}

#[test]
fn bar_row_beyond_the_range_wraps_around() {
    let low = Card::new(FOREGROUND, BACKGROUND, Point::new(0, i32::MAX), Size::new(50, 30), "", CardStyle::with_bar_height(10));
    assert_eq!(
        low.primitives()[2],
        Primitive::RoundedFill { area: rectangle(0, i32::MIN + 19, 50, 10), radii: bottom_rounded(), color: FOREGROUND }
    );
    assert_eq!(i32::MAX.wrapping_add(20), i32::MIN + 19);
    let high = Card::new(FOREGROUND, BACKGROUND, Point::new(0, i32::MIN), Size::new(50, 0), "", CardStyle::with_bar_height(1));
    assert_eq!(
        high.primitives()[2],
        Primitive::RoundedFill { area: rectangle(0, i32::MAX, 50, 1), radii: bottom_rounded(), color: FOREGROUND }
    );
    let huge = Card::new(FOREGROUND, BACKGROUND, Point::new(0, -7), Size::new(1, u32::MAX), "", CardStyle::with_bar_height(0));
    assert_eq!(
        huge.primitives()[2],
        Primitive::RoundedFill { area: rectangle(0, -8, 1, 0), radii: bottom_rounded(), color: FOREGROUND }
    );
    assert_eq!((-7i32).wrapping_add_unsigned(u32::MAX), -8);
}

#[test]
fn presets_match_their_table() {
    assert_eq!(CardStyleBuilder::big().build(), CardStyle { bar_height: 20, font: CardFont::Large });
    assert_eq!(CardStyleBuilder::new().build(), CardStyle { bar_height: 20, font: CardFont::Large });
    assert_eq!(CardStyleBuilder::medium().build(), CardStyle { bar_height: 15, font: CardFont::Medium });
    assert_eq!(CardStyleBuilder::small().build(), CardStyle { bar_height: 10, font: CardFont::Small });
    assert_eq!(CardStyle::default(), CardStyle { bar_height: 20, font: CardFont::Large });
    assert_eq!((BIG_BAR_HEIGHT, MEDIUM_BAR_HEIGHT, SMALL_BAR_HEIGHT), (20, 15, 10));
    assert_eq!((BORDER_WIDTH, BAR_CORNER_RADIUS), (1, 6));
}

#[test]
fn with_bar_height_changes_the_height_of_the_big_preset() {
    assert_eq!(CardStyle::with_bar_height(33), CardStyle { bar_height: 33, font: CardFont::Large });
    assert_eq!(CardStyle::with_bar_height(0), CardStyle { bar_height: 0, font: CardFont::Large });
}

#[test]
fn with_font_changes_the_font_of_the_big_preset() {
    assert_eq!(CardStyle::with_font(CardFont::Small), CardStyle { bar_height: 20, font: CardFont::Small });
    let custom = CardFont::Custom(FONT_6X13);
    assert_eq!(CardStyle::with_font(custom), CardStyle { bar_height: 20, font: custom });
}

#[test]
fn setters_change_one_field_each() {
    let style = CardStyleBuilder::small().bar_height(12).build();
    assert_eq!(style, CardStyle { bar_height: 12, font: CardFont::Small });
    let style = CardStyleBuilder::medium().font(CardFont::Large).build();
    assert_eq!(style, CardStyle { bar_height: 15, font: CardFont::Large });
    let style = CardStyleBuilder::big().bar_height(1).bar_height(2).build();
    assert_eq!(style, CardStyle { bar_height: 2, font: CardFont::Large });
}

#[test]
fn setters_commute() {
    let custom = CardFont::Custom(FONT_10X20);
    for font in [CardFont::Large, CardFont::Medium, CardFont::Small, custom] {
        for height in [0, 10, 15, 20, 77, u32::MAX] {
            for start in [CardStyleBuilder::big(), CardStyleBuilder::medium(), CardStyleBuilder::small()] {
                let one = start.font(font).bar_height(height).build();
                let other = start.bar_height(height).font(font).build();
                assert_eq!(one, other);
                assert_eq!(one, CardStyle { bar_height: height, font });
            }
        }
    }
}

#[test]
fn custom_font_reaches_the_label() {
    let font = CardFont::Custom(FONT_6X13);
    let style = CardStyleBuilder::small().font(font).build();
    let card = Card::new(FOREGROUND, BACKGROUND, Point::new(268, 150), Size::new(132, 150), "Balkon", style);
    assert_eq!(
        card.primitives()[3],
        Primitive::Label { area: rectangle(268, 290, 132, 10), text: "Balkon", font, color: BACKGROUND }
    );
}

fn step_name(step: &Primitive<'_, u8>) -> &'static str {
    match step {
        Primitive::Fill { .. } => "fill",
        Primitive::Stroke { .. } => "stroke",
        Primitive::RoundedFill { .. } => "bar",
        Primitive::Label { .. } => "label",
    }
}

/// Draws the card with a painter that fails, with its number, at the step of that number.
fn drawn(card: &Card<'static, u8>, failing: Option<usize>) -> (Result<(), usize>, Vec<&'static str>) {
    let mut painted = Vec::new();
    let mut done = 0;
    let mut last = Ok(());
    loop {
        match card.step(done, last) {
            Next::Paint(step) => {
                painted.push(step_name(&step));
                last = if failing == Some(done) { Err(done) } else { Ok(()) };
                done += 1;
            }
            Next::Finished => return (Ok(()), painted),
            Next::Failed(error) => return (Err(error), painted),
        }
    }
}

#[test]
fn step_hands_out_the_plan_in_order() {
    let card = kitchen(CardStyleBuilder::medium().build());
    let mut plan = card.primitives();
    assert_eq!(plan.len(), 4);
    assert_eq!(card.step::<()>(4, Ok(())), Next::Finished);
    assert_eq!(card.step::<()>(5, Ok(())), Next::Finished);
    assert_eq!(card.step::<()>(usize::MAX, Ok(())), Next::Finished);
    for done in (0..4).rev() {
        assert_eq!(card.step::<()>(done, Ok(())), Next::Paint(plan.remove(done)));
    }
}

#[test]
fn step_after_a_failure_is_the_failure() {
    let card = kitchen(CardStyleBuilder::big().build());
    for done in [0, 1, 2, 3, 4, 5, usize::MAX] {
        assert_eq!(card.step(done, Err("write failed")), Next::Failed("write failed"));
    }
}

#[test]
fn drawing_paints_the_four_steps_in_order() {
    let card = kitchen(CardStyleBuilder::big().build());
    assert_eq!(drawn(&card, None), (Ok(()), vec!["fill", "stroke", "bar", "label"]));
}

#[test]
fn drawing_stops_at_the_first_failure() {
    let card = kitchen(CardStyleBuilder::big().build());
    assert_eq!(drawn(&card, Some(0)), (Err(0), vec!["fill"]));
    assert_eq!(drawn(&card, Some(1)), (Err(1), vec!["fill", "stroke"]));
    assert_eq!(drawn(&card, Some(2)), (Err(2), vec!["fill", "stroke", "bar"]));
    assert_eq!(drawn(&card, Some(3)), (Err(3), vec!["fill", "stroke", "bar", "label"]));
}
