use game_the_curse_of_the_headless_goose::cooldown::Cooldown;
use game_the_curse_of_the_headless_goose::gfx::battle::action;
use game_the_curse_of_the_headless_goose::gfx::dialogue::{wrap, Line};
use game_the_curse_of_the_headless_goose::gfx::glide::{Direction, Glider};
use game_the_curse_of_the_headless_goose::gfx::intro::{confirm_lines, menu_lines, LINES, WIDTH};
use game_the_curse_of_the_headless_goose::gfx::shop::align_right;
use game_the_curse_of_the_headless_goose::gfx::text::TextBox;
use game_the_curse_of_the_headless_goose::gfx::{clear_remaining_text_box, text_font, Point, Rect};

#[test]
fn test_lines_consts() {
    let calculated = [menu_lines(), confirm_lines()].iter().map(|list| list.len()).max();
    assert_eq!(Some(LINES), calculated)
}

#[test]
fn test_width_consts() {
    let width = [menu_lines(), confirm_lines()]
        .iter()
        .flat_map(|list| list.iter())
        .map(|line| line.len())
        .max();
    assert_eq!(Some(WIDTH), width)
}

#[test]
fn clear_remaining_text_box_blanks_the_rest() {
    let font = text_font();
    let rect = clear_remaining_text_box(Point { x: 10, y: 20 }, font, 3, 10);
    assert_eq!(rect, Some(Rect { x: 31, y: 20, width: 49, height: 13 }));
    assert_eq!(clear_remaining_text_box(Point { x: 10, y: 20 }, font, 10, 10), None);
    assert_eq!(clear_remaining_text_box(Point { x: 10, y: 20 }, font, 12, 10), None);
}

#[test]
fn text_box_renders_then_clears() {
    let font = text_font();
    let tb = TextBox::new(Point { x: 0, y: 13 }, font, 25);
    let (at, clear) = tb.render_and_clear(Some(7));
    assert_eq!(at, Some(Point { x: 0, y: 13 }));
    assert_eq!(clear, Some(Rect { x: 49, y: 13, width: 126, height: 13 }));
    let (at, clear) = tb.render_and_clear(None);
    assert_eq!(at, None);
    assert_eq!(clear, Some(Rect { x: 0, y: 13, width: 175, height: 13 }));
}

#[test]
fn wrap_breaks_long_lines_and_newlines() {
    let text = "Hello\nWorld";
    let lines = wrap(text.as_bytes());
    assert_eq!(
        lines,
        vec![Line { y: 0, start: 0, end: 5 }, Line { y: 13, start: 6, end: 11 }]
    );
    let long = "a".repeat(100);
    let lines = wrap(long.as_bytes());
    assert_eq!(
        lines,
        vec![
            Line { y: 0, start: 0, end: 45 },
            Line { y: 13, start: 45, end: 90 },
            Line { y: 26, start: 90, end: 100 },
        ]
    );
}

#[test]
fn wrap_leading_newline_leaves_a_gap() {
    // A newline at the start of a step takes a line's height; a newline
    // right after it goes with it.
    let lines = wrap("\n\nAB\n\n\nC".as_bytes());
    assert_eq!(
        lines,
        vec![Line { y: 13, start: 2, end: 4 }, Line { y: 39, start: 7, end: 8 }]
    );
}

#[test]
fn wrap_stops_at_the_bottom_of_the_screen() {
    let text = "x\n".repeat(50);
    let lines = wrap(text.as_bytes());
    assert_eq!(lines.len(), 37);
    assert_eq!(lines[36].y, 468);
}

#[test]
fn cooldown_bar_heights() {
    // Full: no charge bar.
    assert_eq!(action::cooldown_height(&Cooldown { value: 4, total: 4 }), 0);
    // Half charged: half of the 18 pixels.
    assert_eq!(action::cooldown_height(&Cooldown { value: 2, total: 4 }), 9);
    // Just used: at least two pixels.
    assert_eq!(action::cooldown_height(&Cooldown { value: 0, total: 4 }), 2);
}

#[test]
fn ability_box_positions() {
    let b = action::render(3, &Cooldown { value: 1, total: 2 });
    assert_eq!(b.frame, Rect { x: 140, y: 455, width: 20, height: 20 });
    assert_eq!(b.label_at, Point { x: 148, y: 460 });
    assert!(!b.full);
    assert_eq!(b.empty_bar, Rect { x: 156, y: 456, width: 3, height: 9 });
    assert_eq!(b.charge_bar, Rect { x: 156, y: 465, width: 3, height: 9 });
}

#[test]
fn glider_moves_then_vanishes() {
    let mut g = Glider::new(Point { x: 5, y: 100 }, Direction::Up, 2);
    assert!(g.step());
    assert_eq!(g.point, Point { x: 5, y: 99 });
    assert!(g.step());
    assert_eq!(g.distance, 0);
    assert!(!g.clear_all);
    assert!(g.step());
    assert!(g.clear_all);
    assert!(g.finished());
    assert!(!g.step());
    assert_eq!(g.point, Point { x: 5, y: 98 });
}

#[test]
fn glider_paint_blanks_the_trail() {
    let mut g = Glider::new(Point { x: 0, y: 50 }, Direction::Down, 5);
    let bbox = Rect { x: 0, y: 40, width: 21, height: 13 };
    let p = g.paint(bbox);
    assert!(p.draw_text);
    assert_eq!(p.blank, None);
    assert_eq!(p.trail, None);
    g.step();
    let p = g.paint(bbox);
    assert_eq!(p.trail, Some(Rect { x: 0, y: 39, width: 21, height: 1 }));
    let up = Glider { direction: Direction::Up, ..g };
    assert_eq!(up.paint(bbox).trail, Some(Rect { x: 0, y: 54, width: 21, height: 1 }));
}

#[test]
fn shop_prices_align_right() {
    assert_eq!(align_right(Point { x: 30, y: 30 }, 4), Point { x: 262, y: 30 });
}
