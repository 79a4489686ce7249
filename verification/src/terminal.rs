//! The character grid behind the renderer: a width-by-height matrix of
//! cells, a cursor, and the operations that keep them consistent. Drawing
//! to the real terminal is the surrounding application's work.

use vstd::prelude::*;

verus! {

/// A grid of character cells with a cursor.
pub struct Terminal {
    /// Grid width in columns.
    pub width: u16,
    /// Grid height in rows.
    pub height: u16,
    /// Cursor column.
    pub cursor_x: u16,
    /// Cursor row.
    pub cursor_y: u16,
    /// The cells, row by row; always `height` rows of `width` columns.
    pub buffer: Vec<Vec<char>>,
}

impl Terminal {
    /// The grid really is `height` rows of `width` cells.
    pub open spec fn wf(self) -> bool {
        &&& self.buffer@.len() == self.height
        &&& forall|y: int|
            0 <= y < self.buffer@.len() ==> (#[trigger] self.buffer@[y])@.len() == self.width
    }

    /// Every cell is a blank space.
    pub open spec fn all_blank(self) -> bool {
        forall|y: int, x: int|
            0 <= y < self.buffer@.len() && 0 <= x < self.buffer@[y]@.len() ==> self.buffer@[y]@[x]
                == ' '
    }

    /// A blank grid of the given size with the cursor at the origin.
    pub fn new(width: u16, height: u16) -> (r: Self)
        ensures
            r.wf(),
            r.width == width,
            r.height == height,
            r.cursor_x == 0,
            r.cursor_y == 0,
            r.all_blank(),
    {
        let buffer = blank_grid(width, height);
        Terminal { width, height, cursor_x: 0, cursor_y: 0, buffer }
    }

    /// Adopts a new size with a fresh blank grid. The result depends on the
    /// new size alone, so resizing twice to one size equals resizing once.
    pub fn resize(&mut self, width: u16, height: u16) -> (r: Result<(), crate::error::WarpError>)
        ensures
            final(self).wf(),
            final(self).width == width,
            final(self).height == height,
            final(self).all_blank(),
            final(self).cursor_x == old(self).cursor_x,
            final(self).cursor_y == old(self).cursor_y,
            r == Ok::<(), crate::error::WarpError>(()),
    {
        self.width = width;
        self.height = height;
        self.buffer = blank_grid(width, height);
        Ok(())
    }

    /// Blanks the grid and rests the cursor at the origin; the caller
    /// clears the real screen.
    pub fn clear(&mut self) -> (r: Result<(), crate::error::WarpError>)
        ensures
            final(self).wf(),
            final(self).width == old(self).width,
            final(self).height == old(self).height,
            final(self).all_blank(),
            final(self).cursor_x == 0,
            final(self).cursor_y == 0,
            r == Ok::<(), crate::error::WarpError>(()),
    {
        self.buffer = blank_grid(self.width, self.height);
        self.cursor_x = 0;
        self.cursor_y = 0;
        Ok(())
    }

    /// Writes `text` into the row `y` starting at column `x`; whatever runs
    /// past the right edge is dropped, and a row outside the grid takes
    /// nothing. The caller draws the same text on the real screen.
    pub fn write_at(&mut self, x: u16, y: u16, text: &str) -> (r: Result<
        (),
        crate::error::WarpError,
    >)
        requires
            old(self).wf(),
        ensures
            final(self).wf(),
            final(self).width == old(self).width,
            final(self).height == old(self).height,
            final(self).cursor_x == old(self).cursor_x,
            final(self).cursor_y == old(self).cursor_y,
            final(self).buffer@.len() == old(self).buffer@.len(),
            forall|row: int|
                0 <= row < old(self).buffer@.len() && row != y ==> final(self).buffer@[row]@ == old(
                    self,
                ).buffer@[row]@,
            (y < old(self).height && x < old(self).width) ==> forall|col: int|
                0 <= col < old(self).width ==> (#[trigger] final(self).buffer@[y as int]@[col]) == (
                if x <= col < x + text@.len() {
                    text@[col - x]
                } else {
                    old(self).buffer@[y as int]@[col]
                }),
            !(y < old(self).height && x < old(self).width) ==> final(self).buffer@ == old(
                self,
            ).buffer@,
            r == Ok::<(), crate::error::WarpError>(()),
    {
        if y < self.height && x < self.width {
            let n = text.unicode_len();
            let mut row = self.buffer.remove(y as usize);
            let mut i: usize = 0;
            while i < n
                invariant
                    i <= n,
                    n == text@.len(),
                    x < old(self).width,
                    y < old(self).height,
                    old(self).wf(),
                    self.width == old(self).width,
                    self.height == old(self).height,
                    self.cursor_x == old(self).cursor_x,
                    self.cursor_y == old(self).cursor_y,
                    self.buffer@ == old(self).buffer@.remove(y as int),
                    row@.len() == old(self).width,
                    forall|col: int|
                        0 <= col < old(self).width ==> (#[trigger] row@[col]) == (
                        if x <= col < x + i {
                            text@[col - x]
                        } else {
                            old(self).buffer@[y as int]@[col]
                        }),
                decreases n - i,
            {
                if i < (self.width - x) as usize {
                    let c = text.get_char(i);
                    let col = x as usize + i;
                    row[col] = c;
                }
                i = i + 1;
            }
            self.buffer.insert(y as usize, row);
            proof {
                assert(final(self).buffer@.len() == old(self).buffer@.len());
                assert forall|rr: int|
                    0 <= rr < old(self).buffer@.len() && rr != y implies final(self).buffer@[rr]@
                    == old(self).buffer@[rr]@ by {}
            }
        }
        Ok(())
    }

    /// Moves the cursor; the caller moves the real one.
    pub fn move_cursor(&mut self, x: u16, y: u16) -> (r: Result<(), crate::error::WarpError>)
        ensures
            final(self).wf() == old(self).wf(),
            final(self).buffer@ == old(self).buffer@,
            final(self).width == old(self).width,
            final(self).height == old(self).height,
            final(self).cursor_x == x,
            final(self).cursor_y == y,
            r == Ok::<(), crate::error::WarpError>(()),
    {
        self.cursor_x = x;
        self.cursor_y = y;
        Ok(())
    }

    /// The grid's size as (columns, rows).
    pub fn get_size(&self) -> (r: (u16, u16))
        ensures
            r.0 == self.width,
            r.1 == self.height,
    {
        (self.width, self.height)
    }

    /// The cursor's position as (column, row).
    pub fn get_cursor_position(&self) -> (r: (u16, u16))
        ensures
            r.0 == self.cursor_x,
            r.1 == self.cursor_y,
    {
        (self.cursor_x, self.cursor_y)
    }
}

/// `height` rows of `width` blank cells.
fn blank_grid(width: u16, height: u16) -> (g: Vec<Vec<char>>)
    ensures
        g@.len() == height,
        forall|y: int| 0 <= y < height ==> (#[trigger] g@[y])@.len() == width,
        forall|y: int, x: int| 0 <= y < height && 0 <= x < width ==> g@[y]@[x] == ' ',
{
    let mut g: Vec<Vec<char>> = Vec::new();
    let mut y: u16 = 0;
    while y < height
        invariant
            y <= height,
            g@.len() == y,
            forall|r: int| 0 <= r < y ==> (#[trigger] g@[r])@.len() == width,
            forall|r: int, x: int| 0 <= r < y && 0 <= x < width ==> g@[r]@[x] == ' ',
        decreases height - y,
    {
        let mut row: Vec<char> = Vec::new();
        let mut x: u16 = 0;
        while x < width
            invariant
                x <= width,
                row@.len() == x,
                forall|c: int| 0 <= c < x ==> row@[c] == ' ',
            decreases width - x,
        {
            row.push(' ');
            x = x + 1;
        }
        g.push(row);
        y = y + 1;
    }
    g
}

} // verus!
