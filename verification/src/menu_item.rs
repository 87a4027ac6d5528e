use vstd::prelude::*;

use crate::command::{
    label_command, right_aligned_command, submenu_fits, submenu_row_commands, DrawCommand,
    HorizontalAlign,
};
use crate::geometry::{Point, Rect};
use crate::style::{measure_spec, MenuStyle, TextRole};

verus! {

/// The closed set of renderable entry kinds.
#[derive(Debug, PartialEq, Eq, Clone, Copy)]
pub enum MenuItemType {
    Section,
    Checkbox,
    Selector,
    Submenu,
}

/// One menu entry: a label, its kind, a copy of the menu's style, and the
/// layout position its text is drawn at (zero unless a layout pass moves it).
/// A selector entry additionally owns its option list and the index of the
/// option it currently shows; every other kind carries no options.
#[derive(Debug, PartialEq, Clone, Copy)]
pub struct MenuItem<'a, C> {
    pub label: &'static str,
    pub item_type: MenuItemType,
    pub highlighted: bool,
    pub position: Point,
    pub menu_style: MenuStyle<C>,
    pub options: Option<&'a [&'static str]>,
    pub selected_option: usize,
}

/// The entry a plain constructor builds: unhighlighted, at the origin, with
/// no options to select.
pub open spec fn item_spec<'a, C>(
    label: &'static str,
    item_type: MenuItemType,
    menu_style: MenuStyle<C>,
) -> MenuItem<'a, C> {
    MenuItem {
        label,
        item_type,
        highlighted: false,
        position: Point { x: 0, y: 0 },
        menu_style,
        options: None,
        selected_option: 0,
    }
}

/// The entry the selector constructor builds: like `item_spec`, but of the
/// selector kind, owning `options` and showing the first of them.
pub open spec fn selector_spec<'a, C>(
    label: &'static str,
    menu_style: MenuStyle<C>,
    options: &'a [&'static str],
) -> MenuItem<'a, C> {
    MenuItem {
        label,
        item_type: MenuItemType::Selector,
        highlighted: false,
        position: Point { x: 0, y: 0 },
        menu_style,
        options: Some(options),
        selected_option: 0,
    }
}

impl<'a, C> MenuItem<'a, C> {
    /// The selection index stays inside the option list, and is zero when
    /// there is nothing to select.
    pub open spec fn wf(self) -> bool {
        match self.options {
            Some(opts) => if opts@.len() == 0 {
                self.selected_option == 0
            } else {
                self.selected_option < opts@.len()
            },
            None => self.selected_option == 0,
        }
    }

    /// The option text a selector row shows, if it has any to show.
    pub open spec fn selected_text(self) -> Option<&'static str> {
        match self.options {
            Some(opts) => if opts@.len() == 0 {
                None
            } else {
                Some(opts@[self.selected_option as int])
            },
            None => None,
        }
    }
}

/// The index a selector's selection moves to when it advances: one further,
/// wrapping past the last option to the first.
pub open spec fn advance_selection_spec<'a, C>(item: MenuItem<'a, C>) -> int {
    match item.options {
        Some(opts) => if opts@.len() == 0 {
            0
        } else {
            (item.selected_option + 1) % (opts@.len() as int)
        },
        None => 0,
    }
}

/// The commands of one entry row, in drawing order, inside `region`:
/// - a section draws its label alone;
/// - a checkbox draws its label, then the fixed state glyph right-aligned to
///   the region's full width;
/// - a selector draws its label, then the currently selected option text
///   right-aligned (or the label alone when it has no options);
/// - a submenu row partitions the region and draws the indicator triangle
///   and the label, as `submenu_row_commands` lays them out.
pub open spec fn item_row_commands<'a, C>(item: MenuItem<'a, C>, region: Rect) -> Seq<
    DrawCommand<C>,
> {
    let style = item.menu_style.item_character_style;
    match item.item_type {
        MenuItemType::Section => seq![label_command(item.label, item.position, style, region)],
        MenuItemType::Checkbox => seq![
            label_command(item.label, item.position, style, region),
            right_aligned_command("[ ]", style, region),
        ],
        MenuItemType::Selector => match item.selected_text() {
            Some(text) => seq![
                label_command(item.label, item.position, style, region),
                right_aligned_command(text, style, region),
            ],
            None => seq![label_command(item.label, item.position, style, region)],
        },
        MenuItemType::Submenu => submenu_row_commands(
            item.label,
            item.position,
            item.menu_style,
            region,
        ),
    }
}

impl<'a, C: Copy> MenuItem<'a, C> {
    pub fn new(
        label: &'static str,
        item_type: MenuItemType,
        menu_style: MenuStyle<C>,
    ) -> (item: MenuItem<'a, C>)
        ensures
            item == item_spec::<'a, C>(label, item_type, menu_style),
            item.wf(),
    {
        MenuItem {
            label,
            item_type,
            highlighted: false,
            position: Point::zero(),
            menu_style,
            options: None,
            selected_option: 0,
        }
    }

    /// A selector entry owning the given option list, showing its first
    /// option.
    pub fn new_selector(
        label: &'static str,
        menu_style: MenuStyle<C>,
        options: &'a [&'static str],
    ) -> (item: MenuItem<'a, C>)
        ensures
            item == selector_spec(label, menu_style, options),
            item.wf(),
    {
        MenuItem {
            label,
            item_type: MenuItemType::Selector,
            highlighted: false,
            position: Point::zero(),
            menu_style,
            options: Some(options),
            selected_option: 0,
        }
    }

    pub fn label(&self) -> (label: &'static str)
        ensures
            label == self.label,
    {
        self.label
    }

    /// The bounding box of the label measured with the entry's item text
    /// style: origin zero, used purely for sizing during layout.
    pub fn bounds(&self) -> (r: Rect)
        requires
            self.label@.len() * self.menu_style.item_character_style.char_width <= u32::MAX,
        ensures
            r == measure_spec(self.label, self.menu_style.item_character_style),
    {
        let n = self.label.unicode_len();
        let width = (n as u64) * (self.menu_style.item_character_style.char_width as u64);
        Rect {
            x: 0,
            y: 0,
            width: width as u32,
            height: self.menu_style.item_character_style.char_height,
        }
    }

    /// Cycle a selector's shown option one step forward, wrapping past the
    /// last option; entries without options are left untouched.
    pub fn advance_selection(&mut self)
        requires
            old(self).wf(),
        ensures
            final(self).wf(),
            final(self).selected_option as int == advance_selection_spec(*old(self)),
            final(self).label == old(self).label,
            final(self).item_type == old(self).item_type,
            final(self).highlighted == old(self).highlighted,
            final(self).position == old(self).position,
            final(self).menu_style == old(self).menu_style,
            final(self).options == old(self).options,
    {
        match self.options {
            Some(opts) => {
                if opts.len() > 0 {
                    self.selected_option = (self.selected_option + 1) % opts.len();
                }
            },
            None => {},
        }
    }

    /// Append this entry's row commands for the given region, already
    /// clipped to the row, onto the plan being built.
    pub fn draw(&self, region: Rect, out: &mut Vec<DrawCommand<C>>)
        requires
            self.wf(),
            region.wf(),
            self.item_type is Submenu ==> submenu_fits(
                self.menu_style.item_character_style.char_height,
                region.width,
            ),
        ensures
            final(out)@ == old(out)@ + item_row_commands(*self, region),
    {
        let style = self.menu_style.item_character_style;
        match self.item_type {
            MenuItemType::Submenu => {
                let item_height = style.char_height;
                let indicator_width = item_height / 2;
                let indicator_clip = Rect {
                    x: region.x + ((region.width - indicator_width) as i32),
                    y: region.y,
                    width: indicator_width,
                    height: region.height,
                };
                out.push(DrawCommand::Triangle {
                    clip: indicator_clip,
                    a: Point { x: 0, y: 2 },
                    b: Point { x: 0, y: (item_height - 2) as i32 },
                    c: Point {
                        x: (indicator_width - 2) as i32,
                        y: ((item_height - 4) / 2 + 2) as i32,
                    },
                    color: self.menu_style.indicator_fill_color,
                });
                let label_clip = Rect {
                    x: region.x,
                    y: region.y,
                    width: region.width - indicator_width,
                    height: region.height,
                };
                out.push(DrawCommand::Text {
                    clip: label_clip,
                    origin: self.position,
                    text: self.label,
                    style,
                    role: TextRole::Item,
                    align: HorizontalAlign::Left,
                });
            },
            MenuItemType::Checkbox => {
                out.push(DrawCommand::Text {
                    clip: region,
                    origin: self.position,
                    text: self.label,
                    style,
                    role: TextRole::Item,
                    align: HorizontalAlign::Left,
                });
                out.push(DrawCommand::Text {
                    clip: region,
                    origin: Point { x: region.width as i32, y: 0 },
                    text: "[ ]",
                    style,
                    role: TextRole::Item,
                    align: HorizontalAlign::Right,
                });
            },
            MenuItemType::Selector => {
                out.push(DrawCommand::Text {
                    clip: region,
                    origin: self.position,
                    text: self.label,
                    style,
                    role: TextRole::Item,
                    align: HorizontalAlign::Left,
                });
                match self.options {
                    Some(opts) => {
                        if opts.len() > 0 {
                            let text = opts[self.selected_option];
                            out.push(DrawCommand::Text {
                                clip: region,
                                origin: Point { x: region.width as i32, y: 0 },
                                text,
                                style,
                                role: TextRole::Item,
                                align: HorizontalAlign::Right,
                            });
                        }
                    },
                    None => {},
                }
            },
            MenuItemType::Section => {
                out.push(DrawCommand::Text {
                    clip: region,
                    origin: self.position,
                    text: self.label,
                    style,
                    role: TextRole::Item,
                    align: HorizontalAlign::Left,
                });
            },
        }
        proof {
            assert(out@ =~= old(out)@ + item_row_commands(*self, region));
        }
    }
}

/// Law: a checkbox row always carries exactly two commands, and the second
/// draws the fixed three-character state glyph right-aligned at the region's
/// full width — whatever the label and whatever the region's size.
pub proof fn lemma_checkbox_glyph_right_aligned<'a, C>(item: MenuItem<'a, C>, region: Rect)
    requires
        item.item_type is Checkbox,
    ensures
        item_row_commands(item, region).len() == 2,
        item_row_commands(item, region)[1] == (DrawCommand::Text {
            clip: region,
            origin: Point { x: region.width as i32, y: 0 },
            text: "[ ]",
            style: item.menu_style.item_character_style,
            role: TextRole::Item,
            align: HorizontalAlign::Right,
        }),
{
}

} // verus!
