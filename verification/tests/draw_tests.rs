use menu_core::command::{DrawCommand, HorizontalAlign};
use menu_core::geometry::{Point, Rect};
use menu_core::menu::Menu;
use menu_core::menu_item::{MenuItem, MenuItemType};
use menu_core::style::{CharStyle, MenuStyle, TextRole};
use menu_core::submenu::SubmenuItem;

fn heading_style() -> CharStyle<u32> {
    CharStyle { char_width: 6, char_height: 12, color: 1 }
}

fn item_style() -> CharStyle<u32> {
    CharStyle { char_width: 6, char_height: 10, color: 2 }
}

fn style() -> MenuStyle<u32> {
    MenuStyle::new(
        0,
        heading_style(),
        item_style(),
        3,
        4,
        CharStyle { char_width: 6, char_height: 10, color: 5 },
    )
}

#[test]
fn settings_menu_end_to_end_frame() {
    let mut m: Menu<u32> = Menu::new("Settings", style());
    m.add_checkbox("Sound");
    m.add_section("About");
    let plan = m.draw(64, 64);
    let expected = vec![
        DrawCommand::Clear { color: 0 },
        DrawCommand::Text {
            clip: Rect { x: 0, y: 0, width: 64, height: 64 },
            origin: Point { x: 0, y: 0 },
            text: "Settings",
            style: heading_style(),
            role: TextRole::Heading,
            align: HorizontalAlign::Left,
        },
        DrawCommand::Text {
            clip: Rect { x: 0, y: 12, width: 64, height: 10 },
            origin: Point { x: 0, y: 0 },
            text: "Sound",
            style: item_style(),
            role: TextRole::Item,
            align: HorizontalAlign::Left,
        },
        DrawCommand::Text {
            clip: Rect { x: 0, y: 12, width: 64, height: 10 },
            origin: Point { x: 64, y: 0 },
            text: "[ ]",
            style: item_style(),
            role: TextRole::Item,
            align: HorizontalAlign::Right,
        },
        DrawCommand::Text {
            clip: Rect { x: 0, y: 22, width: 64, height: 10 },
            origin: Point { x: 0, y: 0 },
            text: "About",
            style: item_style(),
            role: TextRole::Item,
            align: HorizontalAlign::Left,
        },
    ];
    assert_eq!(plan, expected);
    assert!(!plan.iter().any(|c| matches!(c, DrawCommand::Triangle { .. })));
}

#[test]
fn empty_menu_draws_only_clear_and_header() {
    let m: Menu<u32> = Menu::new("Settings", style());
    let plan = m.draw(32, 32);
    assert_eq!(plan.len(), 2);
    assert!(matches!(plan[0], DrawCommand::Clear { color: 0 }));
    assert!(matches!(plan[1], DrawCommand::Text { text: "Settings", .. }));
}

#[test]
fn partial_row_is_not_rendered_at_all() {
    let mut m: Menu<u32> = Menu::new("Settings", style());
    m.add_checkbox("Sound");
    m.add_section("About");
    // header 12 leaves a 13-pixel viewport: "Sound" (10) fits whole,
    // the 3 pixels left cannot take "About", which must not appear at all
    let plan = m.draw(64, 25);
    assert_eq!(plan.len(), 4);
    assert!(!plan.iter().any(|c| matches!(c, DrawCommand::Text { text: "About", .. })));
    for c in plan.iter() {
        if let DrawCommand::Text { clip, .. } = c {
            assert!(clip.y as u32 + clip.height <= 25);
        }
    }
}

#[test]
fn checkbox_glyph_is_right_aligned_whatever_label_and_width() {
    let long = MenuItem::new("AVeryLongCheckboxLabel", MenuItemType::Checkbox, style());
    let short = MenuItem::new("A", MenuItemType::Checkbox, style());
    for (item, width) in [(long, 10u32), (long, 300), (short, 10), (short, 300)] {
        let region = Rect { x: 0, y: 0, width, height: 10 };
        let mut out: Vec<DrawCommand<u32>> = Vec::new();
        item.draw(region, &mut out);
        assert_eq!(out.len(), 2);
        assert_eq!(
            out[1],
            DrawCommand::Text {
                clip: region,
                origin: Point { x: width as i32, y: 0 },
                text: "[ ]",
                style: item_style(),
                role: TextRole::Item,
                align: HorizontalAlign::Right,
            },
        );
    }
}

#[test]
fn submenu_indicator_is_the_right_half_height_strip_padded_two() {
    let sub = SubmenuItem::new("S", style());
    // entry height 10: the strip is 5 wide, flush right, full row height;
    // the triangle is padded 2 from top, bottom and right, apex mid-height
    for (x, width) in [(5i32, 100u32), (0, 40)] {
        let region = Rect { x, y: 7, width, height: 10 };
        let mut out: Vec<DrawCommand<u32>> = Vec::new();
        sub.draw(region, &mut out);
        assert_eq!(out.len(), 2);
        assert_eq!(
            out[0],
            DrawCommand::Triangle {
                clip: Rect { x: x + width as i32 - 5, y: 7, width: 5, height: 10 },
                a: Point { x: 0, y: 2 },
                b: Point { x: 0, y: 8 },
                c: Point { x: 3, y: 5 },
                color: 3,
            },
        );
        assert_eq!(
            out[1],
            DrawCommand::Text {
                clip: Rect { x, y: 7, width: width - 5, height: 10 },
                origin: Point { x: 0, y: 0 },
                text: "S",
                style: item_style(),
                role: TextRole::Item,
                align: HorizontalAlign::Left,
            },
        );
    }
}

#[test]
fn submenu_kind_menu_item_draws_like_a_submenu_row() {
    let item = MenuItem::new("S", MenuItemType::Submenu, style());
    let sub = SubmenuItem::new("S", style());
    let region = Rect { x: 0, y: 0, width: 40, height: 10 };
    let mut from_item: Vec<DrawCommand<u32>> = Vec::new();
    let mut from_sub: Vec<DrawCommand<u32>> = Vec::new();
    item.draw(region, &mut from_item);
    sub.draw(region, &mut from_sub);
    assert_eq!(from_item, from_sub);
}

#[test]
fn selector_shows_current_option_and_advances_cyclically() {
    let opts = &["fast", "slow"];
    let mut item = MenuItem::new_selector("Mode", style(), opts);
    let region = Rect { x: 0, y: 0, width: 64, height: 10 };
    let shown = |item: &MenuItem<u32>| -> &'static str {
        let mut out: Vec<DrawCommand<u32>> = Vec::new();
        item.draw(region, &mut out);
        assert_eq!(out.len(), 2);
        match out[1] {
            DrawCommand::Text { text, align: HorizontalAlign::Right, .. } => text,
            _ => panic!("expected the option text right-aligned"),
        }
    };
    assert_eq!(shown(&item), "fast");
    item.advance_selection();
    assert_eq!(shown(&item), "slow");
    item.advance_selection();
    assert_eq!(shown(&item), "fast");
}

#[test]
fn selector_without_options_draws_label_alone() {
    let item = MenuItem::new("Mode", MenuItemType::Selector, style());
    let mut out: Vec<DrawCommand<u32>> = Vec::new();
    item.draw(Rect { x: 0, y: 0, width: 64, height: 10 }, &mut out);
    assert_eq!(out.len(), 1);
    assert!(matches!(out[0], DrawCommand::Text { text: "Mode", .. }));
}

#[test]
fn measured_bounds_follow_the_character_metrics() {
    let item = MenuItem::new("Sound", MenuItemType::Section, style());
    assert_eq!(item.bounds(), Rect { x: 0, y: 0, width: 30, height: 10 });
    let sub = SubmenuItem::new("Extras", style());
    assert_eq!(sub.bounds(), Rect { x: 0, y: 0, width: 36, height: 10 });
    assert_eq!(item.label(), "Sound");
    assert_eq!(sub.label(), "Extras");
}

#[test]
fn cursor_scrolls_viewport_so_first_visible_row_is_highlighted() {
    let mut m: Menu<u32> = Menu::new("Settings", style());
    m.add_section("first");
    m.add_section("second");
    m.navigate_down();
    let plan = m.draw(64, 64);
    // the first entry is skipped: "second" occupies the top of the viewport
    assert_eq!(plan.len(), 3);
    match plan[2] {
        DrawCommand::Text { text, clip, .. } => {
            assert_eq!(text, "second");
            assert_eq!(clip, Rect { x: 0, y: 12, width: 64, height: 10 });
        },
        _ => panic!("expected the second row's label"),
    }
}
