use vstd::prelude::*;

use crate::geometry::Rect;

verus! {

/// Which of the menu's configured text styles a text command is drawn with.
/// The executor maps each role back to its full font description.
#[derive(Debug, PartialEq, Eq, Clone, Copy)]
pub enum TextRole {
    Heading,
    Item,
    Highlight,
}

/// Metrics and color of one monospaced text style: every character advances
/// `char_width` pixels and a single line of text is `char_height` pixels tall.
#[derive(Debug, PartialEq, Eq, Clone, Copy)]
pub struct CharStyle<C> {
    pub char_width: u32,
    pub char_height: u32,
    pub color: C,
}

/// The flat visual configuration shared by a menu and every entry in it.
/// One value of this type governs the look of a whole menu tree.
#[derive(Debug, PartialEq, Clone, Copy)]
pub struct MenuStyle<C> {
    pub menu_background_color: C,
    pub heading_character_style: CharStyle<C>,
    pub item_character_style: CharStyle<C>,
    pub indicator_fill_color: C,
    pub highlight_item_color: C,
    pub highlight_text_style: CharStyle<C>,
}

impl<C: Copy> MenuStyle<C> {
    pub fn new(
        menu_background_color: C,
        heading_character_style: CharStyle<C>,
        item_character_style: CharStyle<C>,
        indicator_fill_color: C,
        highlight_item_color: C,
        highlight_text_style: CharStyle<C>,
    ) -> (s: MenuStyle<C>)
        ensures
            s == (MenuStyle {
                menu_background_color,
                heading_character_style,
                item_character_style,
                indicator_fill_color,
                highlight_item_color,
                highlight_text_style,
            }),
    {
        MenuStyle {
            menu_background_color,
            heading_character_style,
            item_character_style,
            indicator_fill_color,
            highlight_item_color,
            highlight_text_style,
        }
    }
}

/// The bounding box of a single line of text measured with a monospaced
/// style, at origin zero: every character advances `char_width` pixels and
/// the line is one character height tall.
pub open spec fn measure_spec<C>(text: &'static str, style: CharStyle<C>) -> Rect {
    Rect {
        x: 0,
        y: 0,
        width: (text@.len() * style.char_width) as u32,
        height: style.char_height,
    }
}

} // verus!
