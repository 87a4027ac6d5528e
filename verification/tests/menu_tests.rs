use menu_core::command::DrawCommand;
use menu_core::menu::{Menu, MenuItems};
use menu_core::menu_item::{MenuItem, MenuItemType};
use menu_core::style::{CharStyle, MenuStyle};

fn style() -> MenuStyle<u32> {
    MenuStyle::new(
        0,
        CharStyle { char_width: 6, char_height: 12, color: 1 },
        CharStyle { char_width: 6, char_height: 10, color: 2 },
        3,
        4,
        CharStyle { char_width: 6, char_height: 10, color: 5 },
    )
}

/// The label of the first visible row of a frame, if any row is visible.
fn first_row_label(plan: &[DrawCommand<u32>]) -> Option<&'static str> {
    match plan.get(2) {
        Some(DrawCommand::Text { text, .. }) => Some(*text),
        Some(DrawCommand::Triangle { .. }) => Some("<triangle>"),
        _ => None,
    }
}

#[test]
fn item_count_after_mutations_is_n_plus_one() {
    // four mutating calls of all four kinds; the count (root included) must
    // be five, which shows in where the cursor wraps: skipping five times
    // leaves the cursor resting on the count (first visible row: none), and
    // the sixth step wraps to zero (first visible row: the first entry)
    let s = style();
    let mut m: Menu<u32> = Menu::new("Root", s);
    m.add_checkbox("A");
    let opts = &["x", "y"];
    m.add_selector("B", opts);
    m.add_section("C");
    let nested: Menu<u32> = Menu::new("More", s);
    m.add_submenu(nested);

    for _ in 0..5 {
        m.navigate_down();
    }
    let plan = m.draw(64, 200);
    assert_eq!(plan.len(), 2, "cursor should rest on the count: no rows");
    m.navigate_down();
    let plan = m.draw(64, 200);
    assert_eq!(first_row_label(&plan), Some("A"));
}

#[test]
fn navigation_skips_rows_in_insertion_order() {
    let mut m: Menu<u32> = Menu::new("Root", style());
    m.add_section("first");
    m.add_section("second");
    m.add_section("third");
    let plan = m.draw(64, 200);
    assert_eq!(first_row_label(&plan), Some("first"));
    m.navigate_down();
    let plan = m.draw(64, 200);
    assert_eq!(first_row_label(&plan), Some("second"));
    m.navigate_down();
    let plan = m.draw(64, 200);
    assert_eq!(first_row_label(&plan), Some("third"));
    m.navigate_up();
    let plan = m.draw(64, 200);
    assert_eq!(first_row_label(&plan), Some("second"));
}

#[test]
fn absorbed_submenu_appears_as_one_submenu_row() {
    let s = style();
    let mut nested: Menu<u32> = Menu::new("Extras", s);
    nested.add_checkbox("Inner");
    let mut m: Menu<u32> = Menu::new("Root", s);
    m.add_submenu(nested);
    let plan = m.draw(64, 200);
    // one row: the absorbed menu's header, drawn as indicator plus label;
    // the nested "Inner" checkbox is below the absorbed header, not a row
    assert_eq!(plan.len(), 4);
    assert!(matches!(plan[2], DrawCommand::Triangle { .. }));
    match plan[3] {
        DrawCommand::Text { text, .. } => assert_eq!(text, "Extras"),
        _ => panic!("expected the absorbed header's label"),
    }
    assert!(!plan.iter().any(|c| matches!(c, DrawCommand::Text { text: "Inner", .. })));
}

#[test]
fn add_item_appends_a_row_in_insertion_order() {
    let s = style();
    let mut m: Menu<u32> = Menu::new("Root", s);
    m.add_item(MenuItems::Item(MenuItem::new("direct", MenuItemType::Section, s)));
    let plan = m.draw(64, 200);
    assert_eq!(first_row_label(&plan), Some("direct"));
}

#[test]
fn select_item_changes_nothing() {
    let mut m: Menu<u32> = Menu::new("Root", style());
    m.add_checkbox("A");
    let before = m.draw(64, 200);
    m.select_item();
    let after = m.draw(64, 200);
    assert_eq!(before, after);
}

#[test]
fn fits_surface_checks_header_and_indicator_geometry() {
    let s = style();
    let mut m: Menu<u32> = Menu::new("Root", s);
    m.add_checkbox("A");
    assert!(m.fits_surface(64, 64));
    // the header line alone is 12 pixels tall
    assert!(!m.fits_surface(64, 11));
    // without a submenu row even a 1-pixel-wide surface lays out
    assert!(m.fits_surface(1, 64));
    let nested: Menu<u32> = Menu::new("More", s);
    m.add_submenu(nested);
    // a submenu row needs its 5-pixel indicator strip to fit the width
    assert!(m.fits_surface(5, 64));
    assert!(!m.fits_surface(4, 64));
}
