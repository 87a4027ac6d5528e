use vstd::prelude::*;

use crate::geometry::{Point, Rect};
use crate::style::{CharStyle, MenuStyle, TextRole};

verus! {

/// Horizontal anchoring of a text command inside its clip region.
#[derive(Debug, PartialEq, Eq, Clone, Copy)]
pub enum HorizontalAlign {
    Left,
    Right,
}

/// One step of a rendering plan. The library only decides *what* to draw and
/// *where*; a host executes each command against its display driver, in
/// order, stopping at the first surface fault.
///
/// Text origins are relative to the command's clip region, with the text's
/// top edge on the origin's row (a top baseline). A right-aligned text ends
/// at its origin instead of starting there.
#[derive(Debug, PartialEq, Clone, Copy)]
pub enum DrawCommand<C> {
    /// Fill the whole surface with one color.
    Clear { color: C },
    /// Render a single line of text inside `clip`.
    Text {
        clip: Rect,
        origin: Point,
        text: &'static str,
        style: CharStyle<C>,
        role: TextRole,
        align: HorizontalAlign,
    },
    /// Fill the triangle `a`-`b`-`c`, coordinates relative to `clip`.
    Triangle { clip: Rect, a: Point, b: Point, c: Point, color: C },
}

/// The command that draws an entry's label, left-aligned at the top of the
/// given clip region, offset by the entry's layout position.
pub open spec fn label_command<C>(
    text: &'static str,
    position: Point,
    style: CharStyle<C>,
    clip: Rect,
) -> DrawCommand<C> {
    DrawCommand::Text {
        clip,
        origin: position,
        text,
        style,
        role: TextRole::Item,
        align: HorizontalAlign::Left,
    }
}

/// The command that draws `text` ending exactly at the clip region's right
/// edge, at the top of the region.
pub open spec fn right_aligned_command<C>(text: &'static str, style: CharStyle<C>, clip: Rect) -> DrawCommand<C> {
    DrawCommand::Text {
        clip,
        origin: Point { x: clip.width as i32, y: 0 },
        text,
        style,
        role: TextRole::Item,
        align: HorizontalAlign::Right,
    }
}

/// The indicator area of a submenu row: a strip anchored to the region's
/// right edge, as wide as half the entry's rendered height.
pub open spec fn submenu_indicator_rect(region: Rect, item_height: u32) -> Rect {
    Rect {
        x: (region.x + region.width - item_height / 2) as i32,
        y: region.y,
        width: item_height / 2,
        height: region.height,
    }
}

/// The label area of a submenu row: whatever the indicator strip leaves.
pub open spec fn submenu_label_rect(region: Rect, item_height: u32) -> Rect {
    Rect {
        x: region.x,
        y: region.y,
        width: (region.width - item_height / 2) as u32,
        height: region.height,
    }
}

/// The solid right-pointing triangle inside the indicator strip: its
/// vertical extent is the entry height shrunk by a fixed 2-pixel pad top and
/// bottom, its apex sits 2 pixels in from the strip's right edge, mid-height
/// between the two pads.
pub open spec fn indicator_triangle<C>(region: Rect, item_height: u32, fill: C) -> DrawCommand<C> {
    DrawCommand::Triangle {
        clip: submenu_indicator_rect(region, item_height),
        a: Point { x: 0, y: 2 },
        b: Point { x: 0, y: (item_height - 2) as i32 },
        c: Point {
            x: (item_height / 2 - 2) as i32,
            y: ((item_height - 4) / 2 + 2) as i32,
        },
        color: fill,
    }
}

/// All commands of one submenu row: the indicator triangle, then the label
/// drawn in the remaining left-hand area.
pub open spec fn submenu_row_commands<C>(
    label: &'static str,
    position: Point,
    style: MenuStyle<C>,
    region: Rect,
) -> Seq<DrawCommand<C>> {
    seq![
        indicator_triangle(region, style.item_character_style.char_height, style.indicator_fill_color),
        label_command(
            label,
            position,
            style.item_character_style,
            submenu_label_rect(region, style.item_character_style.char_height),
        ),
    ]
}

/// The geometric side conditions a region must meet before a submenu row can
/// be laid out in it: the indicator strip fits in the region's width and the
/// fixed pads cannot underflow the entry height.
pub open spec fn submenu_fits(item_height: u32, region_width: u32) -> bool {
    &&& 4 <= item_height
    &&& item_height <= i32::MAX
    &&& item_height / 2 <= region_width
}

/// Whether a command is the whole-surface clear (the only command that is
/// not confined to a clip region).
pub open spec fn is_clear<C>(cmd: DrawCommand<C>) -> bool {
    match cmd {
        DrawCommand::Clear { .. } => true,
        _ => false,
    }
}

/// The region a clipped command draws inside. A clear has no clip region;
/// for it this returns the degenerate empty rectangle.
pub open spec fn clip_rect<C>(cmd: DrawCommand<C>) -> Rect {
    match cmd {
        DrawCommand::Clear { .. } => Rect { x: 0, y: 0, width: 0, height: 0 },
        DrawCommand::Text { clip, .. } => clip,
        DrawCommand::Triangle { clip, .. } => clip,
    }
}

} // verus!
