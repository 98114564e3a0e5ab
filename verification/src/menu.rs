//! Menus: a column of items, some of them selectable, and a cursor that
//! moves over the selectable ones.

use vstd::prelude::*;
use vstd::utf8::encode_utf8;

verus! {

/// An item of a menu. `A` is what choosing it does.
pub struct MenuItem<A> {
    pub label_text: String,
    pub action: A,
    pub selectable: bool,
}

impl<A> MenuItem<A> {
    /// An item with a label and an action, selectable or not.
    pub fn new(label: &str, action: A, selectable: bool) -> (r: Self)
        ensures
            r.label_text@ == label@,
            r.action == action,
            r.selectable == selectable,
    {
        MenuItem { label_text: String::from_str(label), action, selectable }
    }
}

/// The keys that steer a menu during one frame.
#[derive(Clone, Copy, PartialEq, Eq, Structural, Debug)]
pub struct MenuInput {
    pub up: bool,
    pub down: bool,
    pub enter: bool,
}

/// A menu and the index of its highlighted item.
pub struct Menu<A> {
    pub menu_items: Vec<MenuItem<A>>,
    pub current_index: u32,
}

/// Which items of a menu can be selected.
pub open spec fn selectables<A>(items: Seq<MenuItem<A>>) -> Seq<bool> {
    items.map_values(|it: MenuItem<A>| it.selectable)
}

/// The highlight moves off an item that cannot be selected, onto the next.
pub open spec fn skip_unselectable(sel: Seq<bool>, i: int) -> int {
    if !sel[i] { i + 1 } else { i }
}

/// One step down: onto the next item, and past it when it cannot be
/// selected, or back when it is the last one.
pub open spec fn step_down(sel: Seq<bool>, i: int) -> int {
    if i < sel.len() - 1 {
        let j = i + 1;
        if !sel[j] {
            if j < sel.len() - 1 { j + 1 } else { j - 1 }
        } else {
            j
        }
    } else {
        i
    }
}

/// One step up: onto the previous item, and past it when it cannot be
/// selected, or back when it is the first one.
pub open spec fn step_up(sel: Seq<bool>, i: int) -> int {
    if i > 0 {
        let j = i - 1;
        if !sel[j] {
            if j > 0 { j - 1 } else { j + 1 }
        } else {
            j
        }
    } else {
        i
    }
}

/// Where the highlight is after a frame: first off an item that cannot
/// be selected, then down, then up.
pub open spec fn menu_step(sel: Seq<bool>, i: int, input: MenuInput) -> int {
    let a = skip_unselectable(sel, i);
    let b = if input.down { step_down(sel, a) } else { a };
    if input.up { step_up(sel, b) } else { b }
}

/// The length in bytes of the longest label, 0 for a menu without items.
pub open spec fn widest_label<A>(items: Seq<MenuItem<A>>) -> nat
    decreases items.len(),
{
    if items.len() == 0 {
        0
    } else {
        let rest = widest_label(items.drop_last());
        let here = (encode_utf8(items.last().label_text@).len() as usize) as nat;
        if here > rest { here } else { rest }
    }
}

/// A menu whose last item can be selected and where no two items in a row
/// cannot.
pub open spec fn well_laid_out(sel: Seq<bool>) -> bool {
    &&& sel.len() > 0
    &&& sel.last()
    &&& forall|i: int| 0 <= i < sel.len() - 1 && !#[trigger] sel[i] ==> sel[i + 1]
}

impl<A> Menu<A> {
    /// A menu without items, highlighting the first.
    pub fn new() -> (r: Self)
        ensures
            r.menu_items@.len() == 0,
            r.current_index == 0,
    {
        Menu { menu_items: Vec::new(), current_index: 0 }
    }

    /// Puts an item at the bottom of the menu.
    pub fn add_item(&mut self, item: MenuItem<A>)
        ensures
            final(self).menu_items@ == old(self).menu_items@.push(item),
            final(self).current_index == old(self).current_index,
    {
        self.menu_items.push(item);
    }

    /// Whether `update` can take this frame's input: the highlight is on
    /// an item, and when enter is pressed it ends on one.
    pub fn can_update(&self, input: MenuInput) -> (r: bool)
        ensures
            r == (self.menu_items@.len() > 0 && self.menu_items@.len() <= u32::MAX
                && self.current_index < self.menu_items@.len() && (input.enter ==> menu_step(
                selectables(self.menu_items@),
                self.current_index as int,
                input,
            ) < self.menu_items@.len())),
    {
        let n = self.menu_items.len();
        if n == 0 || n > 4294967295 || self.current_index as usize >= n {
            return false;
        }
        if !input.enter {
            return true;
        }
        let ghost sel = selectables(self.menu_items@);
        let last = n - 1;
        let mut i = self.current_index as usize;
        if !self.menu_items[i].selectable {
            i += 1;
        }
        assert(i == skip_unselectable(sel, self.current_index as int));
        if input.down && i < last {
            i += 1;
            if !self.menu_items[i].selectable {
                if i < last {
                    i += 1;
                } else {
                    i -= 1;
                }
            }
        }
        if input.up && i > 0 {
            i -= 1;
            if i < n && !self.menu_items[i].selectable {
                if i > 0 {
                    i -= 1;
                } else {
                    i += 1;
                }
            }
        }
        i < n
    }

    /// The size of the menu's box in text cells: the longest label's length
    /// in bytes, and the number of items.
    pub fn size_in_chars(&self) -> (r: (usize, usize))
        ensures
            r.0 == widest_label(self.menu_items@),
            r.1 == self.menu_items@.len(),
    {
        let mut width: usize = 0;
        let n = self.menu_items.len();
        let mut i: usize = 0;
        while i < n
            invariant
                n == self.menu_items@.len(),
                i <= n,
                width == widest_label(self.menu_items@.take(i as int)),
            decreases n - i,
        {
            assert(self.menu_items@.take(i + 1).drop_last() =~= self.menu_items@.take(i as int));
            let len = self.menu_items[i].label_text.as_str().len();
            if len > width {
                width = len;
            }
            i += 1;
        }
        assert(self.menu_items@.take(n as int) =~= self.menu_items@);
        (width, n)
    }

    /// Moves the highlight for one frame of input. When enter is pressed,
    /// gives the index of the item to activate.
    pub fn update(&mut self, input: MenuInput) -> (r: Option<usize>)
        requires
            old(self).menu_items@.len() > 0,
            old(self).menu_items@.len() <= u32::MAX,
            old(self).current_index < old(self).menu_items@.len(),
            input.enter ==> menu_step(
                selectables(old(self).menu_items@),
                old(self).current_index as int,
                input,
            ) < old(self).menu_items@.len(),
        ensures
            final(self).menu_items == old(self).menu_items,
            final(self).current_index == menu_step(
                selectables(old(self).menu_items@),
                old(self).current_index as int,
                input,
            ),
            input.enter ==> r == Some(final(self).current_index as usize) && r.unwrap()
                < old(self).menu_items@.len(),
            !input.enter ==> r is None,
    {
        let ghost sel = selectables(self.menu_items@);
        let len = self.menu_items.len() as u32;
        if !self.menu_items[self.current_index as usize].selectable {
            self.current_index += 1;
        }
        if input.down {
            if self.current_index < len - 1 {
                self.current_index += 1;
                if !self.menu_items[self.current_index as usize].selectable {
                    if self.current_index < len - 1 {
                        self.current_index += 1;
                    } else {
                        self.current_index -= 1;
                    }
                }
            }
        }
        if input.up {
            if self.current_index > 0 {
                self.current_index -= 1;
                if !self.menu_items[self.current_index as usize].selectable {
                    if self.current_index > 0 {
                        self.current_index -= 1;
                    } else {
                        self.current_index += 1;
                    }
                }
            }
        }
        if input.enter {
            return Some(self.current_index as usize);
        }
        None
    }
}

/// In a well laid out menu the highlight stays on a selectable item: from
/// any item, after any frame of input, it rests on one that can be chosen.
pub proof fn law_highlight_stays_selectable(sel: Seq<bool>, i: int, input: MenuInput)
    requires
        well_laid_out(sel),
        0 <= i < sel.len(),
    ensures
        0 <= menu_step(sel, i, input) < sel.len(),
        sel[menu_step(sel, i, input)],
{
    let a = skip_unselectable(sel, i);
    if !sel[i] {
        assert(i < sel.len() - 1);
    }
    let b = if input.down { step_down(sel, a) } else { a };
    if input.down && a < sel.len() - 1 && !sel[a + 1] {
        assert(a + 1 < sel.len() - 1);
    }
    if input.up && b > 0 && !sel[b - 1] && b - 1 > 0 {
        if !sel[b - 2] {
            assert(sel[b - 1]);
        }
    }
}

/// The colour a label is written in.
#[derive(Clone, Copy, PartialEq, Eq, Structural, Debug)]
pub enum LabelColour {
    Blue,
    Yellow,
    White,
}

impl<A> MenuItem<A> {
    /// The colour of the item's label: blue when it cannot be selected,
    /// yellow when it is highlighted, white otherwise.
    pub fn label_colour(&self, selected: bool) -> (r: LabelColour)
        ensures
            r == (if !self.selectable {
                LabelColour::Blue
            } else if selected {
                LabelColour::Yellow
            } else {
                LabelColour::White
            }),
    {
        if !self.selectable {
            LabelColour::Blue
        } else if selected {
            LabelColour::Yellow
        } else {
            LabelColour::White
        }
    }
}

/// Which of the three columns (or rows) of the frame image a piece of the
/// box's border comes from: `0` for the first line of the box, `2` for the
/// last one, `n + 1`, and `1` for the `n` lines between them.
pub open spec fn frame_part(i: int, n: int) -> int {
    if i == 0 {
        0
    } else if i == n + 1 {
        2
    } else {
        1
    }
}

/// The cell of the 3 by 3 frame image that the box of a menu draws at
/// cell `(col, row)`, where the box is `width` cells wide and `height`
/// cells high inside its border: corners from the image's corners, edges
/// from its edges, and the inside from its middle.
pub fn frame_cell(col: u32, row: u32, width: u32, height: u32) -> (r: (u32, u32))
    requires
        col <= width as int + 1,
        row <= height as int + 1,
    ensures
        r.0 == frame_part(col as int, width as int),
        r.1 == frame_part(row as int, height as int),
{
    let x: u32 = if col == 0 {
        0
    } else if col as u64 == width as u64 + 1 {
        2
    } else {
        1
    };
    let y: u32 = if row == 0 {
        0
    } else if row as u64 == height as u64 + 1 {
        2
    } else {
        1
    };
    (x, y)
}

/// The cells of a box `width` cells wide and `height` cells high inside
/// its border, column by column, each with the cell of the frame image it
/// is drawn from: `(col, row, image column, image row)`.
pub fn frame_cells(width: u32, height: u32) -> (r: Vec<(u32, u32, u32, u32)>)
    requires
        width < u32::MAX,
        height < u32::MAX,
        (width + 2) * (height + 2) <= usize::MAX,
    ensures
        r@.len() == (width + 2) * (height + 2),
        forall|col: int, row: int|
            0 <= col <= width + 1 && 0 <= row <= height + 1 ==> #[trigger] r@[col * (height + 2) + row] == (
            col as u32,
            row as u32,
            frame_part(col, width as int) as u32,
            frame_part(row, height as int) as u32,
        ),
{
    let ghost h: int = height + 2;
    let mut out: Vec<(u32, u32, u32, u32)> = Vec::new();
    let mut col: u64 = 0;
    while col <= width as u64 + 1
        invariant
            width < u32::MAX,
            height < u32::MAX,
            h == height + 2,
            (width + 2) * h <= usize::MAX,
            col <= width + 2,
            out@.len() == col * h,
            forall|c: int, r: int|
                0 <= c < col && 0 <= r < h ==> #[trigger] out@[c * h + r] == (
                c as u32,
                r as u32,
                frame_part(c, width as int) as u32,
                frame_part(r, height as int) as u32,
            ),
        decreases width + 2 - col,
    {
        let mut row: u64 = 0;
        while row <= height as u64 + 1
            invariant
                width < u32::MAX,
                height < u32::MAX,
                h == height + 2,
                (width + 2) * h <= usize::MAX,
                col <= width + 1,
                row <= height + 2,
                out@.len() == col * h + row,
                forall|c: int, r: int|
                    0 <= c < col && 0 <= r < h ==> #[trigger] out@[c * h + r] == (
                    c as u32,
                    r as u32,
                    frame_part(c, width as int) as u32,
                    frame_part(r, height as int) as u32,
                ),
                forall|r: int|
                    0 <= r < row ==> #[trigger] out@[col * h + r] == (
                    col as u32,
                    r as u32,
                    frame_part(col as int, width as int) as u32,
                    frame_part(r, height as int) as u32,
                ),
            decreases height + 2 - row,
        {
            proof {
                assert(col * h + row < (width + 2) * h) by (nonlinear_arith)
                    requires col <= width + 1, row < h, h >= 2;
            }
            let (x, y) = frame_cell(col as u32, row as u32, width, height);
            let ghost before = out@;
            out.push((col as u32, row as u32, x, y));
            proof {
                assert forall|c: int, r: int|
                    0 <= c < col && 0 <= r < h implies #[trigger] out@[c * h + r] == (
                    c as u32,
                    r as u32,
                    frame_part(c, width as int) as u32,
                    frame_part(r, height as int) as u32,
                ) by {
                    assert(c * h + r < col * h) by (nonlinear_arith)
                        requires c < col, r < h, 0 <= r;
                    assert(out@[c * h + r] == before[c * h + r]);
                }
            }
            row += 1;
        }
        proof {
            assert((col + 1) * h == col * h + h) by (nonlinear_arith);
            assert forall|c: int, r: int|
                0 <= c < col + 1 && 0 <= r < h implies #[trigger] out@[c * h + r] == (
                c as u32,
                r as u32,
                frame_part(c, width as int) as u32,
                frame_part(r, height as int) as u32,
            ) by {
                if c == col {
                    assert(out@[col * h + r] == out@[c * h + r]);
                }
            }
        }
        col += 1;
    }
    out
}

impl<A> Menu<A> {
    /// The cells of the menu's box: as wide as the widest label, two rows
    /// for each item, and a border around them (see `frame_cells`).
    pub fn frame_layout(&self) -> (r: Vec<(u32, u32, u32, u32)>)
        requires
            widest_label(self.menu_items@) < u32::MAX,
            2 * self.menu_items@.len() < u32::MAX,
            (widest_label(self.menu_items@) + 2) * (2 * self.menu_items@.len() + 2) <= usize::MAX,
        ensures
            r@.len() == (widest_label(self.menu_items@) + 2) * (2 * self.menu_items@.len() + 2),
            forall|col: int, row: int|
                0 <= col <= widest_label(self.menu_items@) + 1 && 0 <= row <= 2 * self.menu_items@.len()
                    + 1 ==> #[trigger] r@[col * (2 * self.menu_items@.len() + 2) + row] == (
                col as u32,
                row as u32,
                frame_part(col, widest_label(self.menu_items@) as int) as u32,
                frame_part(row, (2 * self.menu_items@.len()) as int) as u32,
            ),
    {
        let (width, items) = self.size_in_chars();
        frame_cells(width as u32, 2 * items as u32)
    }
}

/// One press of down moves the highlight from a selectable item by one
/// selectable item: onto the next item when it can be selected, past the
/// next one when it cannot, and not at all from the last item. Up does
/// the same the other way, and with no key pressed the highlight stays.
pub proof fn law_one_item_per_press(sel: Seq<bool>, i: int)
    requires
        0 <= i < sel.len(),
        sel[i],
    ensures
        i + 1 < sel.len() && sel[i + 1] ==> menu_step(
            sel,
            i,
            (MenuInput { up: false, down: true, enter: false }),
        ) == i + 1,
        i + 2 < sel.len() && !sel[i + 1] ==> menu_step(
            sel,
            i,
            (MenuInput { up: false, down: true, enter: false }),
        ) == i + 2,
        i + 1 == sel.len() ==> menu_step(sel, i, (MenuInput { up: false, down: true, enter: false }))
            == i,
        i <= menu_step(sel, i, (MenuInput { up: false, down: true, enter: false })) <= i + 2,
        i >= 1 && sel[i - 1] ==> menu_step(sel, i, (MenuInput { up: true, down: false, enter: false }))
            == i - 1,
        i >= 2 && !sel[i - 1] ==> menu_step(
            sel,
            i,
            (MenuInput { up: true, down: false, enter: false }),
        ) == i - 2,
        i == 0 ==> menu_step(sel, i, (MenuInput { up: true, down: false, enter: false })) == 0,
        i - 2 <= menu_step(sel, i, (MenuInput { up: true, down: false, enter: false })) <= i,
        menu_step(sel, i, (MenuInput { up: false, down: false, enter: false })) == i,
        menu_step(sel, i, (MenuInput { up: false, down: false, enter: true })) == i,
{
}

} // verus!
