use vstd::prelude::*;

use crate::command::{
    clip_rect, indicator_triangle, submenu_fits, submenu_indicator_rect, submenu_label_rect,
    submenu_row_commands, DrawCommand, HorizontalAlign,
};
use crate::geometry::{Point, Rect};
use crate::style::{measure_spec, MenuStyle, TextRole};

verus! {

/// The header entry of a menu: it carries the menu's title, and when one
/// menu is absorbed into another it becomes the submenu row that stands for
/// the whole nested tree.
#[derive(Debug, PartialEq, Clone, Copy)]
pub struct SubmenuItem<C> {
    pub label: &'static str,
    pub highlighted: bool,
    pub position: Point,
    pub menu_style: MenuStyle<C>,
}

/// The header the constructor builds: unhighlighted, at the origin.
pub open spec fn submenu_item_spec<C>(label: &'static str, menu_style: MenuStyle<C>) -> SubmenuItem<
    C,
> {
    SubmenuItem { label, highlighted: false, position: Point { x: 0, y: 0 }, menu_style }
}

impl<C: Copy> SubmenuItem<C> {
    pub fn new(label: &'static str, menu_style: MenuStyle<C>) -> (item: SubmenuItem<C>)
        ensures
            item == submenu_item_spec(label, menu_style),
    {
        SubmenuItem { label, highlighted: false, position: Point::zero(), menu_style }
    }

    pub fn label(&self) -> (label: &'static str)
        ensures
            label == self.label,
    {
        self.label
    }

    /// The bounding box of the label measured with the entry's item text
    /// style: origin zero, used purely for sizing during layout.
    pub fn bounds(&self) -> (r: Rect)
        requires
            self.label@.len() * self.menu_style.item_character_style.char_width <= u32::MAX,
        ensures
            r == measure_spec(self.label, self.menu_style.item_character_style),
    {
        let n = self.label.unicode_len();
        let width = (n as u64) * (self.menu_style.item_character_style.char_width as u64);
        Rect {
            x: 0,
            y: 0,
            width: width as u32,
            height: self.menu_style.item_character_style.char_height,
        }
    }

    /// Append this row's commands for the given region, already clipped to
    /// the row, onto the plan being built: the indicator triangle in the
    /// right-hand strip, then the label in the remaining area.
    pub fn draw(&self, region: Rect, out: &mut Vec<DrawCommand<C>>)
        requires
            region.wf(),
            submenu_fits(self.menu_style.item_character_style.char_height, region.width),
        ensures
            final(out)@ == old(out)@ + submenu_row_commands(
                self.label,
                self.position,
                self.menu_style,
                region,
            ),
    {
        let style = self.menu_style.item_character_style;
        let item_height = style.char_height;
        let indicator_width = item_height / 2;
        let indicator_clip = Rect {
            x: region.x + ((region.width - indicator_width) as i32),
            y: region.y,
            width: indicator_width,
            height: region.height,
        };
        out.push(DrawCommand::Triangle {
            clip: indicator_clip,
            a: Point { x: 0, y: 2 },
            b: Point { x: 0, y: (item_height - 2) as i32 },
            c: Point {
                x: (indicator_width - 2) as i32,
                y: ((item_height - 4) / 2 + 2) as i32,
            },
            color: self.menu_style.indicator_fill_color,
        });
        let label_clip = Rect {
            x: region.x,
            y: region.y,
            width: region.width - indicator_width,
            height: region.height,
        };
        out.push(DrawCommand::Text {
            clip: label_clip,
            origin: self.position,
            text: self.label,
            style,
            role: TextRole::Item,
            align: HorizontalAlign::Left,
        });
        proof {
            assert(out@ =~= old(out)@ + submenu_row_commands(
                self.label,
                self.position,
                self.menu_style,
                region,
            ));
        }
    }
}

/// Law: a submenu row's indicator triangle always lives in the strip that is
/// exactly half the entry height wide, anchored flush to the region's right
/// edge and as tall as the row, and the triangle inside it is padded a fixed
/// 2 pixels top, bottom and right, its apex mid-height between the pads.
/// None of this depends on the region's width.
pub proof fn lemma_submenu_indicator_square<C>(
    label: &'static str,
    position: Point,
    style: MenuStyle<C>,
    region: Rect,
)
    requires
        region.wf(),
        submenu_fits(style.item_character_style.char_height, region.width),
    ensures
        submenu_row_commands(label, position, style, region).len() == 2,
        submenu_row_commands(label, position, style, region)[0] == (DrawCommand::Triangle {
            clip: submenu_indicator_rect(region, style.item_character_style.char_height),
            a: Point { x: 0, y: 2 },
            b: Point { x: 0, y: (style.item_character_style.char_height - 2) as i32 },
            c: Point {
                x: (style.item_character_style.char_height / 2 - 2) as i32,
                y: ((style.item_character_style.char_height - 4) / 2 + 2) as i32,
            },
            color: style.indicator_fill_color,
        }),
        // the strip is half the entry height wide, the full row tall, and
        // flush with the region's right edge
        submenu_indicator_rect(region, style.item_character_style.char_height).width
            == style.item_character_style.char_height / 2,
        submenu_indicator_rect(region, style.item_character_style.char_height).height
            == region.height,
        submenu_indicator_rect(region, style.item_character_style.char_height).x
            + submenu_indicator_rect(region, style.item_character_style.char_height).width
            == region.x + region.width,
        // the label keeps the remainder
        clip_rect(submenu_row_commands(label, position, style, region)[1])
            == submenu_label_rect(region, style.item_character_style.char_height),
{
    assert(submenu_row_commands(label, position, style, region)[0] == indicator_triangle(
        region,
        style.item_character_style.char_height,
        style.indicator_fill_color,
    ));
}

} // verus!
