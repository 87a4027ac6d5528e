use vstd::prelude::*;

use crate::command::{
    clip_rect, is_clear, submenu_fits, submenu_row_commands, DrawCommand, HorizontalAlign,
};
use crate::geometry::{Point, Rect};
use crate::menu_item::{item_row_commands, item_spec, selector_spec, MenuItem, MenuItemType};
use crate::state::{down_spec, up_spec, MenuState};
use crate::style::{MenuStyle, TextRole};
use crate::submenu::{submenu_item_spec, SubmenuItem};
use crate::tree::MenuTree;

verus! {

/// One node payload of the menu tree: an ordinary entry, or the header of a
/// menu — the tree's own root, or the absorbed root of a nested menu, which
/// stands for the whole subtree as a single submenu row.
#[derive(Debug, PartialEq, Clone, Copy)]
pub enum MenuItems<'a, C> {
    Item(MenuItem<'a, C>),
    Submenu(SubmenuItem<C>),
}

impl<'a, C> MenuItems<'a, C> {
    pub open spec fn label_spec(self) -> &'static str {
        match self {
            MenuItems::Item(item) => item.label,
            MenuItems::Submenu(sub) => sub.label,
        }
    }

    /// The rendered height of this entry's row: one line of its own item
    /// text style.
    pub open spec fn height_spec(self) -> u32 {
        match self {
            MenuItems::Item(item) => item.menu_style.item_character_style.char_height,
            MenuItems::Submenu(sub) => sub.menu_style.item_character_style.char_height,
        }
    }

    /// The entry's internal invariant (a selector's selection stays inside
    /// its option list).
    pub open spec fn wf(self) -> bool {
        match self {
            MenuItems::Item(item) => item.wf(),
            MenuItems::Submenu(_) => true,
        }
    }

    /// The geometric side conditions this entry asks of a row of the given
    /// width: only a submenu row has any, for its indicator strip.
    pub open spec fn fits_width(self, width: u32) -> bool {
        match self {
            MenuItems::Item(item) => item.item_type is Submenu ==> submenu_fits(
                item.menu_style.item_character_style.char_height,
                width,
            ),
            MenuItems::Submenu(sub) => submenu_fits(
                sub.menu_style.item_character_style.char_height,
                width,
            ),
        }
    }
}

/// The commands of one entry row inside `region`, in drawing order.
pub open spec fn entry_row_commands<'a, C>(entry: MenuItems<'a, C>, region: Rect) -> Seq<
    DrawCommand<C>,
> {
    match entry {
        MenuItems::Item(item) => item_row_commands(item, region),
        MenuItems::Submenu(sub) => submenu_row_commands(
            sub.label,
            sub.position,
            sub.menu_style,
            region,
        ),
    }
}

impl<'a, C: Copy> MenuItems<'a, C> {
    pub fn label(&self) -> (label: &'static str)
        ensures
            label == self.label_spec(),
    {
        match self {
            MenuItems::Item(item) => item.label(),
            MenuItems::Submenu(sub) => sub.label(),
        }
    }

    /// The height this entry's row consumes from the viewport.
    pub fn height(&self) -> (h: u32)
        ensures
            h == self.height_spec(),
    {
        match self {
            MenuItems::Item(item) => item.menu_style.item_character_style.char_height,
            MenuItems::Submenu(sub) => sub.menu_style.item_character_style.char_height,
        }
    }

    /// Decide at run time whether a row of the given width meets this
    /// entry's geometric side conditions.
    pub fn check_fits_width(&self, width: u32) -> (ok: bool)
        ensures
            ok == self.fits_width(width),
    {
        match self {
            MenuItems::Item(item) => {
                if matches!(item.item_type, MenuItemType::Submenu) {
                    let h = item.menu_style.item_character_style.char_height;
                    4 <= h && h <= (i32::MAX as u32) && h / 2 <= width
                } else {
                    true
                }
            },
            MenuItems::Submenu(sub) => {
                let h = sub.menu_style.item_character_style.char_height;
                4 <= h && h <= (i32::MAX as u32) && h / 2 <= width
            },
        }
    }

    /// Append this entry's row commands for the given region onto the plan.
    pub fn draw(&self, region: Rect, out: &mut Vec<DrawCommand<C>>)
        requires
            self.wf(),
            region.wf(),
            self.fits_width(region.width),
        ensures
            final(out)@ == old(out)@ + entry_row_commands(*self, region),
    {
        match self {
            MenuItems::Item(item) => item.draw(region, out),
            MenuItems::Submenu(sub) => sub.draw(region, out),
        }
    }
}

/// The menu controller: the ordered tree of entries rooted at the menu's own
/// title header, the shared style, and the navigation state.
pub struct Menu<'a, C> {
    pub(crate) menu_tree_root: MenuTree<MenuItems<'a, C>>,
    pub(crate) menu_style: MenuStyle<C>,
    pub(crate) menu_state: MenuState,
}

impl<'a, C> Menu<'a, C> {
    /// The header entry carrying the menu's title.
    pub closed spec fn header(self) -> MenuItems<'a, C> {
        self.menu_tree_root.data
    }

    /// The root's direct children: the rows this menu shows, in insertion
    /// order, which is display order.
    pub closed spec fn entries(self) -> Seq<MenuItems<'a, C>> {
        self.menu_tree_root.child_data()
    }

    /// The shared style configuration.
    pub closed spec fn style_spec(self) -> MenuStyle<C> {
        self.menu_style
    }

    /// The navigation cursor.
    pub closed spec fn cursor(self) -> int {
        self.menu_state.cursor()
    }

    /// The cached item count, the root header included.
    pub closed spec fn count(self) -> int {
        self.menu_state.count()
    }

    /// Every entry is internally valid.
    pub open spec fn wf(self) -> bool {
        forall|i: int| 0 <= i < self.entries().len() ==> (#[trigger] self.entries()[i]).wf()
    }
}

/// The viewport of one frame: the surface area left below the header line,
/// anchored to the surface's bottom edge.
pub open spec fn viewport_rect(surface_width: u32, surface_height: u32, header_height: u32) -> Rect {
    Rect {
        x: 0,
        y: header_height as i32,
        width: surface_width,
        height: (surface_height - header_height) as u32,
    }
}

/// The top slice of `area`: one row, `h` pixels tall.
pub open spec fn row_rect(area: Rect, h: u32) -> Rect {
    Rect { x: area.x, y: area.y, width: area.width, height: h }
}

/// What is left of `area` once a row of height `h` is consumed from its top.
pub open spec fn shrink_rect(area: Rect, h: u32) -> Rect {
    Rect {
        x: area.x,
        y: (area.y + h) as i32,
        width: area.width,
        height: (area.height - h) as u32,
    }
}

/// The command rows of the visible entries: starting at entry `i`, each row
/// takes its height from the top of `area`, until an entry's height exceeds
/// what is left — that entry, and everything after it, contributes nothing.
pub open spec fn rows_commands<'a, C>(entries: Seq<MenuItems<'a, C>>, i: int, area: Rect) -> Seq<
    DrawCommand<C>,
>
    decreases entries.len() - i,
{
    if i < 0 || i >= entries.len() {
        Seq::empty()
    } else {
        let h = entries[i].height_spec();
        if h > area.height {
            Seq::empty()
        } else {
            entry_row_commands(entries[i], row_rect(area, h)) + rows_commands(
                entries,
                i + 1,
                shrink_rect(area, h),
            )
        }
    }
}

/// The full plan of one frame: clear the surface to the background color,
/// draw the title header at the top left with the heading style, then the
/// visible entry rows, skipping the first `cursor` entries.
pub open spec fn draw_commands_spec<'a, C>(
    header: MenuItems<'a, C>,
    entries: Seq<MenuItems<'a, C>>,
    style: MenuStyle<C>,
    cursor: int,
    surface_width: u32,
    surface_height: u32,
) -> Seq<DrawCommand<C>> {
    seq![
        DrawCommand::Clear { color: style.menu_background_color },
        DrawCommand::Text {
            clip: Rect { x: 0, y: 0, width: surface_width, height: surface_height },
            origin: Point { x: 0, y: 0 },
            text: header.label_spec(),
            style: style.heading_character_style,
            role: TextRole::Heading,
            align: HorizontalAlign::Left,
        },
    ] + rows_commands(
        entries,
        cursor,
        viewport_rect(surface_width, surface_height, style.heading_character_style.char_height),
    )
}

impl<'a, C: Copy> Menu<'a, C> {
    /// A fresh menu: only the root header carrying the title, no entries,
    /// cursor at zero and nothing counted yet.
    pub fn new(label: &'static str, menu_style: MenuStyle<C>) -> (menu: Menu<'a, C>)
        ensures
            menu.header() == MenuItems::Submenu::<'a, C>(submenu_item_spec(label, menu_style)),
            menu.entries() == Seq::<MenuItems<'a, C>>::empty(),
            menu.style_spec() == menu_style,
            menu.cursor() == 0,
            menu.count() == 0,
            menu.wf(),
    {
        Menu {
            menu_tree_root: MenuTree::new(MenuItems::Submenu(SubmenuItem::new(label, menu_style))),
            menu_style,
            menu_state: MenuState::new(),
        }
    }

    /// Append an entry as the new last row, then recompute the cached item
    /// count as the entry total including the root header.
    pub fn add_item(&mut self, item: MenuItems<'a, C>)
        requires
            old(self).wf(),
            item.wf(),
            old(self).entries().len() + 1 < usize::MAX,
        ensures
            final(self).entries() == old(self).entries().push(item),
            final(self).header() == old(self).header(),
            final(self).style_spec() == old(self).style_spec(),
            final(self).cursor() == old(self).cursor(),
            final(self).count() == final(self).entries().len() + 1,
            final(self).wf(),
    {
        self.menu_tree_root.push_back(MenuTree::new(item));
        let n = self.menu_tree_root.degree();
        self.menu_state.update_item_count(n + 1);
        proof {
            assert forall|i: int| 0 <= i < self.entries().len() implies (#[trigger] self.entries()[i]).wf() by {
                if i < old(self).entries().len() {
                    assert(self.entries()[i] == old(self).entries()[i]);
                }
            }
        }
    }

    /// Append a checkbox entry built from this menu's style.
    pub fn add_checkbox(&mut self, label: &'static str)
        requires
            old(self).wf(),
            old(self).entries().len() + 1 < usize::MAX,
        ensures
            final(self).entries() == old(self).entries().push(
                MenuItems::Item(item_spec(label, MenuItemType::Checkbox, old(self).style_spec())),
            ),
            final(self).header() == old(self).header(),
            final(self).style_spec() == old(self).style_spec(),
            final(self).cursor() == old(self).cursor(),
            final(self).count() == final(self).entries().len() + 1,
            final(self).wf(),
    {
        let item = MenuItem::new(label, MenuItemType::Checkbox, self.menu_style);
        self.add_item(MenuItems::Item(item));
    }

    /// Append a selector entry owning the given options, built from this
    /// menu's style and showing the first option.
    pub fn add_selector(&mut self, label: &'static str, options: &'a [&'static str])
        requires
            old(self).wf(),
            old(self).entries().len() + 1 < usize::MAX,
        ensures
            final(self).entries() == old(self).entries().push(
                MenuItems::Item(selector_spec(label, old(self).style_spec(), options)),
            ),
            final(self).header() == old(self).header(),
            final(self).style_spec() == old(self).style_spec(),
            final(self).cursor() == old(self).cursor(),
            final(self).count() == final(self).entries().len() + 1,
            final(self).wf(),
    {
        let item = MenuItem::new_selector(label, self.menu_style, options);
        self.add_item(MenuItems::Item(item));
    }

    /// Append a section entry (a non-selectable row) built from this menu's
    /// style.
    pub fn add_section(&mut self, label: &'static str)
        requires
            old(self).wf(),
            old(self).entries().len() + 1 < usize::MAX,
        ensures
            final(self).entries() == old(self).entries().push(
                MenuItems::Item(item_spec(label, MenuItemType::Section, old(self).style_spec())),
            ),
            final(self).header() == old(self).header(),
            final(self).style_spec() == old(self).style_spec(),
            final(self).cursor() == old(self).cursor(),
            final(self).count() == final(self).entries().len() + 1,
            final(self).wf(),
    {
        let item = MenuItem::new(label, MenuItemType::Section, self.menu_style);
        self.add_item(MenuItems::Item(item));
    }

    /// Absorb a whole nested menu: its tree is appended as one subtree, not
    /// flattened and not copied, so its header becomes this menu's new last
    /// row, standing for everything beneath it.
    pub fn add_submenu(&mut self, submenu: Menu<'a, C>)
        requires
            old(self).wf(),
            submenu.header().wf(),
            old(self).entries().len() + 1 < usize::MAX,
        ensures
            final(self).entries() == old(self).entries().push(submenu.header()),
            final(self).header() == old(self).header(),
            final(self).style_spec() == old(self).style_spec(),
            final(self).cursor() == old(self).cursor(),
            final(self).count() == final(self).entries().len() + 1,
            final(self).wf(),
    {
        let Menu { menu_tree_root: sub_tree, .. } = submenu;
        self.menu_tree_root.push_back(sub_tree);
        let n = self.menu_tree_root.degree();
        self.menu_state.update_item_count(n + 1);
        proof {
            assert forall|i: int| 0 <= i < self.entries().len() implies (#[trigger] self.entries()[i]).wf() by {
                if i < old(self).entries().len() {
                    assert(self.entries()[i] == old(self).entries()[i]);
                }
            }
        }
    }

    /// Move the cursor one step down, with the wraparound of the navigation
    /// state machine.
    pub fn navigate_down(&mut self)
        ensures
            final(self).cursor() == down_spec(old(self).cursor(), old(self).count()),
            final(self).count() == old(self).count(),
            final(self).entries() == old(self).entries(),
            final(self).header() == old(self).header(),
            final(self).style_spec() == old(self).style_spec(),
    {
        self.menu_state.move_down();
    }

    /// Move the cursor one step up, with the wraparound of the navigation
    /// state machine.
    pub fn navigate_up(&mut self)
        ensures
            final(self).cursor() == up_spec(old(self).cursor(), old(self).count()),
            final(self).count() == old(self).count(),
            final(self).entries() == old(self).entries(),
            final(self).header() == old(self).header(),
            final(self).style_spec() == old(self).style_spec(),
    {
        self.menu_state.move_up();
    }

    /// An extension point: selecting has no defined effect in this core and
    /// leaves the menu exactly as it was.
    pub fn select_item(&mut self)
        ensures
            *final(self) == *old(self),
    {
    }

    /// Lay out one frame for a surface of the given size: clear, the title
    /// header, then the visible rows from the cursor on, each clipped to its
    /// own row; the first entry that no longer fits the remaining viewport
    /// whole stops the traversal and is not drawn at all.
    pub fn draw(&self, surface_width: u32, surface_height: u32) -> (plan: Vec<DrawCommand<C>>)
        requires
            self.wf(),
            surface_width <= i32::MAX,
            surface_height <= i32::MAX,
            self.style_spec().heading_character_style.char_height <= surface_height,
            forall|i: int| self.cursor() <= i < self.entries().len() ==> (
            #[trigger] self.entries()[i]).fits_width(surface_width),
        ensures
            plan@ == draw_commands_spec(
                self.header(),
                self.entries(),
                self.style_spec(),
                self.cursor(),
                surface_width,
                surface_height,
            ),
    {
        let ghost target = draw_commands_spec(
            self.header(),
            self.entries(),
            self.style_spec(),
            self.cursor(),
            surface_width,
            surface_height,
        );
        let mut plan: Vec<DrawCommand<C>> = Vec::new();
        plan.push(DrawCommand::Clear { color: self.menu_style.menu_background_color });
        let header = self.menu_tree_root.data;
        let header_height = self.menu_style.heading_character_style.char_height;
        plan.push(DrawCommand::Text {
            clip: Rect { x: 0, y: 0, width: surface_width, height: surface_height },
            origin: Point::zero(),
            text: header.label(),
            style: self.menu_style.heading_character_style,
            role: TextRole::Heading,
            align: HorizontalAlign::Left,
        });
        let mut area = Rect {
            x: 0,
            y: header_height as i32,
            width: surface_width,
            height: surface_height - header_height,
        };
        let items = self.menu_tree_root.child_items();
        let mut i = self.menu_state.highlighted_item();
        proof {
            assert(plan@ =~= seq![target[0], target[1]]);
            assert(plan@ + rows_commands(self.entries(), i as int, area) =~= target);
        }
        while i < items.len()
            invariant_except_break
                items@ == self.entries(),
                self.wf(),
                self.cursor() <= i as int,
                forall|j: int| self.cursor() <= j < self.entries().len() ==> (
                #[trigger] self.entries()[j]).fits_width(surface_width),
                surface_width <= i32::MAX,
                surface_height <= i32::MAX,
                area.x == 0,
                0 <= area.y,
                area.width == surface_width,
                area.y + area.height == surface_height,
                plan@ + rows_commands(items@, i as int, area) == target,
            ensures
                plan@ == target,
            decreases items.len() - i,
        {
            let entry = items[i];
            let h = entry.height();
            if h > area.height {
                proof {
                    assert(rows_commands(items@, i as int, area) =~= Seq::<DrawCommand<C>>::empty());
                    assert(plan@ + rows_commands(items@, i as int, area) =~= plan@);
                }
                break;
            }
            let row = Rect { x: area.x, y: area.y, width: area.width, height: h };
            entry.draw(row, &mut plan);
            proof {
                assert(row == row_rect(area, h));
                assert(rows_commands(items@, i as int, area) == entry_row_commands(entry, row)
                    + rows_commands(items@, i as int + 1, shrink_rect(area, h)));
                assert(plan@ + rows_commands(items@, i as int + 1, shrink_rect(area, h)) =~= target);
            }
            area = Rect {
                x: area.x,
                y: area.y + (h as i32),
                width: area.width,
                height: area.height - h,
            };
            i = i + 1;
        }
        proof {
            assert(plan@ == target) by {
                if plan@ != target {
                    assert(rows_commands(items@, i as int, area) =~= Seq::<DrawCommand<C>>::empty());
                    assert(plan@ + rows_commands(items@, i as int, area) =~= plan@);
                }
            }
        }
        plan
    }

    /// Decide at run time whether a surface of the given size meets every
    /// side condition [`Menu::draw`] asks for: the header line fits the
    /// surface, the coordinates stay within `i32`, and each entry's row
    /// geometry fits the surface width. A host checks this once before
    /// drawing a frame.
    pub fn fits_surface(&self, surface_width: u32, surface_height: u32) -> (ok: bool)
        ensures
            ok == ({
                &&& surface_width <= i32::MAX
                &&& surface_height <= i32::MAX
                &&& self.style_spec().heading_character_style.char_height <= surface_height
                &&& forall|i: int| 0 <= i < self.entries().len() ==> (#[trigger] self.entries()[i])
                    .fits_width(surface_width)
            }),
    {
        if surface_width > (i32::MAX as u32) || surface_height > (i32::MAX as u32) {
            return false;
        }
        if self.menu_style.heading_character_style.char_height > surface_height {
            return false;
        }
        let items = self.menu_tree_root.child_items();
        let mut i: usize = 0;
        while i < items.len()
            invariant
                items@ == self.entries(),
                i <= items@.len(),
                surface_width <= i32::MAX,
                surface_height <= i32::MAX,
                self.style_spec().heading_character_style.char_height <= surface_height,
                forall|j: int| 0 <= j < i ==> (#[trigger] self.entries()[j]).fits_width(
                    surface_width,
                ),
            decreases items@.len() - i,
        {
            if !items[i].check_fits_width(surface_width) {
                assert(!self.entries()[i as int].fits_width(surface_width));
                return false;
            }
            i = i + 1;
        }
        true
    }
}

/// The entries of a menu after a sequence of additions, applied first to
/// last: every mutating call appends exactly one row.
pub open spec fn entries_after_adds<'a, C>(
    start: Seq<MenuItems<'a, C>>,
    added: Seq<MenuItems<'a, C>>,
) -> Seq<MenuItems<'a, C>>
    decreases added.len(),
{
    if added.len() == 0 {
        start
    } else {
        entries_after_adds(start.push(added[0]), added.drop_first())
    }
}

/// The item count every mutating call stores: the entry total including the
/// root header.
pub open spec fn recomputed_count<'a, C>(entries: Seq<MenuItems<'a, C>>) -> int {
    entries.len() as int + 1
}

/// Law: a fresh menu taken through any sequence of N additions — checkbox,
/// selector, section or absorbed submenu alike — holds N entries, so the
/// count cached after the last addition is N + 1, the root included.
pub proof fn lemma_item_count_after_adds<'a, C>(added: Seq<MenuItems<'a, C>>)
    requires
        added.len() > 0,
    ensures
        entries_after_adds(Seq::<MenuItems<'a, C>>::empty(), added).len() == added.len(),
        recomputed_count(entries_after_adds(Seq::<MenuItems<'a, C>>::empty(), added)) == added.len()
            + 1,
{
    lemma_entries_after_adds_len(Seq::<MenuItems<'a, C>>::empty(), added);
}

proof fn lemma_entries_after_adds_len<'a, C>(
    start: Seq<MenuItems<'a, C>>,
    added: Seq<MenuItems<'a, C>>,
)
    ensures
        entries_after_adds(start, added).len() == start.len() + added.len(),
    decreases added.len(),
{
    if added.len() > 0 {
        lemma_entries_after_adds_len(start.push(added[0]), added.drop_first());
    }
}

/// Each command of one entry row stays inside the row's own region.
proof fn lemma_entry_row_within<'a, C>(entry: MenuItems<'a, C>, row: Rect)
    requires
        row.wf(),
        entry.fits_width(row.width),
    ensures
        forall|k: int| 0 <= k < entry_row_commands(entry, row).len() ==> !is_clear(
            #[trigger] entry_row_commands(entry, row)[k],
        ) && row.contains(clip_rect(entry_row_commands(entry, row)[k])),
{
}

/// Law: the plan never renders a partial row. Every command the visible
/// rows emit stays clipped inside the viewport area it was laid out in, and
/// an entry whose height exceeds the remaining space emits nothing at all —
/// that part of the surface is left to the background.
pub proof fn lemma_rows_no_partial_row<'a, C>(entries: Seq<MenuItems<'a, C>>, i: int, area: Rect)
    requires
        area.wf(),
        forall|j: int| i <= j < entries.len() ==> (#[trigger] entries[j]).fits_width(area.width),
    ensures
        forall|k: int| 0 <= k < rows_commands(entries, i, area).len() ==> !is_clear(
            #[trigger] rows_commands(entries, i, area)[k],
        ) && area.contains(clip_rect(rows_commands(entries, i, area)[k])),
        0 <= i < entries.len() && entries[i].height_spec() > area.height ==> rows_commands(
            entries,
            i,
            area,
        ) == Seq::<DrawCommand<C>>::empty(),
    decreases entries.len() - i,
{
    if 0 <= i < entries.len() {
        let h = entries[i].height_spec();
        if h <= area.height {
            let row = row_rect(area, h);
            let rest_area = shrink_rect(area, h);
            lemma_entry_row_within(entries[i], row);
            lemma_rows_no_partial_row(entries, i + 1, rest_area);
            assert forall|k: int| 0 <= k < rows_commands(entries, i, area).len() implies !is_clear(
                #[trigger] rows_commands(entries, i, area)[k],
            ) && area.contains(clip_rect(rows_commands(entries, i, area)[k])) by {
                let head = entry_row_commands(entries[i], row);
                let tail = rows_commands(entries, i + 1, rest_area);
                if k < head.len() {
                    assert(rows_commands(entries, i, area)[k] == head[k]);
                } else {
                    assert(rows_commands(entries, i, area)[k] == tail[k - head.len()]);
                }
            }
        }
    }
}

/// Law: a whole frame never draws outside the surface. The plan opens with
/// the background clear and the header text clipped to the surface itself,
/// and every command after those two stays inside the surface — so whatever
/// the visible rows do not cover is left at the background color.
pub proof fn lemma_frame_stays_on_surface<'a, C>(
    header: MenuItems<'a, C>,
    entries: Seq<MenuItems<'a, C>>,
    style: MenuStyle<C>,
    cursor: int,
    surface_width: u32,
    surface_height: u32,
)
    requires
        surface_width <= i32::MAX,
        surface_height <= i32::MAX,
        style.heading_character_style.char_height <= surface_height,
        forall|j: int| cursor <= j < entries.len() ==> (#[trigger] entries[j]).fits_width(
            surface_width,
        ),
    ensures
        ({
            let plan = draw_commands_spec(
                header,
                entries,
                style,
                cursor,
                surface_width,
                surface_height,
            );
            let surface = Rect { x: 0, y: 0, width: surface_width, height: surface_height };
            &&& plan.len() >= 2
            &&& plan[0] == DrawCommand::Clear::<C> { color: style.menu_background_color }
            &&& clip_rect(plan[1]) == surface
            &&& forall|k: int| 2 <= k < plan.len() ==> !is_clear(#[trigger] plan[k])
                && surface.contains(clip_rect(plan[k]))
        }),
{
    let plan = draw_commands_spec(header, entries, style, cursor, surface_width, surface_height);
    let surface = Rect { x: 0, y: 0, width: surface_width, height: surface_height };
    let viewport = viewport_rect(
        surface_width,
        surface_height,
        style.heading_character_style.char_height,
    );
    let rows = rows_commands(entries, cursor, viewport);
    lemma_rows_no_partial_row(entries, cursor, viewport);
    assert(surface.contains(viewport));
    assert forall|k: int| 2 <= k < plan.len() implies !is_clear(#[trigger] plan[k])
        && surface.contains(clip_rect(plan[k])) by {
        assert(plan[k] == rows[k - 2]);
    }
}

} // verus!
