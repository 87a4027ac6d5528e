use menu_core::state::MenuState;

#[test]
fn move_down_cycles_and_wraps_strictly_above_count() {
    let mut s = MenuState::new();
    s.update_item_count(3);
    assert_eq!(s.highlighted_item(), 0);
    s.move_down();
    assert_eq!(s.highlighted_item(), 1);
    s.move_down();
    assert_eq!(s.highlighted_item(), 2);
    // the cursor transiently equals the item count before it wraps: the wrap
    // fires only strictly above the count
    s.move_down();
    assert_eq!(s.highlighted_item(), 3);
    s.move_down();
    assert_eq!(s.highlighted_item(), 0);
    // a second full cycle lands on the same values
    s.move_down();
    assert_eq!(s.highlighted_item(), 1);
}

#[test]
fn down_then_up_restores_cursor() {
    let mut s = MenuState::new();
    s.update_item_count(3);
    s.move_down();
    assert_eq!(s.highlighted_item(), 1);
    s.move_down();
    s.move_up();
    assert_eq!(s.highlighted_item(), 1);
}

#[test]
fn up_then_down_restores_cursor_when_not_at_zero() {
    let mut s = MenuState::new();
    s.update_item_count(3);
    s.move_down();
    s.move_down();
    assert_eq!(s.highlighted_item(), 2);
    s.move_up();
    s.move_down();
    assert_eq!(s.highlighted_item(), 2);
}

#[test]
fn up_then_down_from_zero_lands_on_count() {
    // from zero the round trip is not the identity: up wraps to the last
    // index, and down then rests on the count itself for one step
    let mut s = MenuState::new();
    s.update_item_count(3);
    s.move_up();
    assert_eq!(s.highlighted_item(), 2);
    s.move_down();
    assert_eq!(s.highlighted_item(), 3);
}

#[test]
fn move_up_wraps_to_last_index() {
    let mut s = MenuState::new();
    s.update_item_count(5);
    s.move_up();
    assert_eq!(s.highlighted_item(), 4);
    s.move_up();
    assert_eq!(s.highlighted_item(), 3);
}

#[test]
fn move_up_with_no_items_stays_at_zero() {
    let mut s = MenuState::new();
    s.move_up();
    assert_eq!(s.highlighted_item(), 0);
}

#[test]
fn update_item_count_does_not_clamp_cursor() {
    let mut s = MenuState::new();
    s.update_item_count(5);
    s.move_down();
    s.move_down();
    s.move_down();
    s.move_down();
    assert_eq!(s.highlighted_item(), 4);
    s.update_item_count(1);
    assert_eq!(s.highlighted_item(), 4);
}
