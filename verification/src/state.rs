use vstd::prelude::*;

verus! {

/// The navigation state machine: a cursor index and a cached entry count.
///
/// The intended invariant is `0 <= cursor < item_count` whenever
/// `item_count > 0`, but it is not enforced here: the count is overwritten
/// by [`MenuState::update_item_count`] without clamping the cursor, and the
/// cursor is allowed to equal `item_count` for one step before wrapping (the
/// wrap in [`MenuState::move_down`] fires only strictly above the count).
pub struct MenuState {
    highlighted_item: usize,
    item_count: usize,
}

/// Where the cursor lands when it moves one step down: one past `cursor`,
/// wrapping to zero only once that would exceed `count`. The cursor may
/// therefore rest at `count` itself for one step.
pub open spec fn down_spec(cursor: int, count: int) -> int {
    if cursor + 1 > count {
        0
    } else {
        cursor + 1
    }
}

/// Where the cursor lands when it moves one step up: one before `cursor`,
/// wrapping from zero to the last index `count - 1`. Moving up from zero
/// while the count is still zero would underflow, so that case is guarded
/// and leaves the cursor at zero.
pub open spec fn up_spec(cursor: int, count: int) -> int {
    if cursor == 0 {
        if count == 0 {
            0
        } else {
            count - 1
        }
    } else {
        cursor - 1
    }
}

impl MenuState {
    /// The current cursor position.
    pub closed spec fn cursor(self) -> int {
        self.highlighted_item as int
    }

    /// The cached number of entries, the menu root included.
    pub closed spec fn count(self) -> int {
        self.item_count as int
    }

    /// A fresh machine: cursor at zero, no entries counted yet.
    pub fn new() -> (s: MenuState)
        ensures
            s.cursor() == 0,
            s.count() == 0,
    {
        MenuState { highlighted_item: 0, item_count: 0 }
    }

    /// Overwrite the cached count. The cursor is deliberately left alone,
    /// even if it is now out of range: no shrinking mutation exists today,
    /// so clamping has nothing to correct.
    pub fn update_item_count(&mut self, item_count: usize)
        ensures
            final(self).cursor() == old(self).cursor(),
            final(self).count() == item_count as int,
    {
        self.item_count = item_count;
    }

    pub fn move_down(&mut self)
        ensures
            final(self).count() == old(self).count(),
            final(self).cursor() == down_spec(old(self).cursor(), old(self).count()),
    {
        if self.highlighted_item >= self.item_count {
            self.highlighted_item = 0;
        } else {
            self.highlighted_item = self.highlighted_item + 1;
        }
    }

    pub fn move_up(&mut self)
        ensures
            final(self).count() == old(self).count(),
            final(self).cursor() == up_spec(old(self).cursor(), old(self).count()),
    {
        if self.highlighted_item == 0 {
            if self.item_count > 0 {
                self.highlighted_item = self.item_count - 1;
            }
        } else {
            self.highlighted_item = self.highlighted_item - 1;
        }
    }

    /// The entry the cursor rests on, which is also how many entries the
    /// draw pipeline skips before the first visible row.
    pub fn highlighted_item(&self) -> (i: usize)
        ensures
            i as int == self.cursor(),
    {
        self.highlighted_item
    }
}

/// Law: with more than one item and an in-range cursor, moving down and then
/// up restores the cursor.
pub proof fn lemma_down_then_up(cursor: int, count: int)
    requires
        count > 1,
        0 <= cursor < count,
    ensures
        up_spec(down_spec(cursor, count), count) == cursor,
{
}

/// Law: with more than one item, moving up and then down restores the
/// cursor, provided the cursor is not at zero. From zero, moving up wraps to
/// `count - 1` and moving down then lands on `count`, not back on zero, so
/// that starting point is excluded.
pub proof fn lemma_up_then_down(cursor: int, count: int)
    requires
        count > 1,
        0 < cursor < count,
    ensures
        down_spec(up_spec(cursor, count), count) == cursor,
{
}

/// The cursor after `k` consecutive downward moves.
pub open spec fn down_iter_spec(cursor: int, count: int, k: nat) -> int
    decreases k,
{
    if k == 0 {
        cursor
    } else {
        down_spec(down_iter_spec(cursor, count, (k - 1) as nat), count)
    }
}

/// Law: repeated downward moves cycle. Starting from zero, the `k`-th move
/// lands on `k` itself for every `k` up to and including `count` (so the
/// cursor transiently equals the count), and move `count + 1` wraps back to
/// zero.
pub proof fn lemma_down_cycle(count: int, k: nat)
    requires
        0 <= count,
        k <= count,
    ensures
        down_iter_spec(0, count, k) == k,
        down_iter_spec(0, count, (count + 1) as nat) == 0,
    decreases k,
{
    if k == 0 {
        lemma_down_cycle_wraps(count);
    } else {
        lemma_down_cycle(count, (k - 1) as nat);
    }
}

/// Law: the move after the cursor has rested on `count` itself returns it to
/// zero, pinning the strictly-greater-than wrap policy.
proof fn lemma_down_cycle_wraps(count: int)
    requires
        0 <= count,
    ensures
        down_iter_spec(0, count, (count + 1) as nat) == 0,
    decreases count,
{
    if count == 0 {
    } else {
        lemma_down_iter_reaches(count, count as nat);
    }
}

/// After `k <= count` downward moves from zero the cursor sits at `k`.
proof fn lemma_down_iter_reaches(count: int, k: nat)
    requires
        0 <= k <= count,
    ensures
        down_iter_spec(0, count, k) == k,
    decreases k,
{
    if k > 0 {
        lemma_down_iter_reaches(count, (k - 1) as nat);
    }
}

} // verus!
