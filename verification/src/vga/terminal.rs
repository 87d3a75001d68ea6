//! The text display: an 80 x 25 grid of character cells with a cursor and a
//! current colour. The grid lives in the `Terminal` value; the platform copies
//! it to the display memory.

use vstd::prelude::*;
use vstd::string::StringSliceAdditionalSpecFns;

verus! {

/// The sixteen colours of the text mode.
#[derive(Clone, Copy, Debug, PartialEq, Eq)]
pub enum VgaColor {
    Black,
    Blue,
    Green,
    Cyan,
    Red,
    Magenta,
    Brown,
    LightGrey,
    DarkGrey,
    LightBlue,
    LightGreen,
    LightCyan,
    LightRed,
    LightMagenta,
    LightBrown,
    White,
}

impl VgaColor {
    /// The number the display hardware knows the colour by.
    pub open spec fn spec_code(self) -> u8 {
        match self {
            VgaColor::Black => 0,
            VgaColor::Blue => 1,
            VgaColor::Green => 2,
            VgaColor::Cyan => 3,
            VgaColor::Red => 4,
            VgaColor::Magenta => 5,
            VgaColor::Brown => 6,
            VgaColor::LightGrey => 7,
            VgaColor::DarkGrey => 8,
            VgaColor::LightBlue => 9,
            VgaColor::LightGreen => 10,
            VgaColor::LightCyan => 11,
            VgaColor::LightRed => 12,
            VgaColor::LightMagenta => 13,
            VgaColor::LightBrown => 14,
            VgaColor::White => 15,
        }
    }

    /// The number the display hardware knows the colour by.
    #[verifier::when_used_as_spec(spec_code)]
    pub fn code(self) -> (code: u8)
        ensures
            code == self.spec_code(),
            code < 16,
    {
        match self {
            VgaColor::Black => 0,
            VgaColor::Blue => 1,
            VgaColor::Green => 2,
            VgaColor::Cyan => 3,
            VgaColor::Red => 4,
            VgaColor::Magenta => 5,
            VgaColor::Brown => 6,
            VgaColor::LightGrey => 7,
            VgaColor::DarkGrey => 8,
            VgaColor::LightBlue => 9,
            VgaColor::LightGreen => 10,
            VgaColor::LightCyan => 11,
            VgaColor::LightRed => 12,
            VgaColor::LightMagenta => 13,
            VgaColor::LightBrown => 14,
            VgaColor::White => 15,
        }
    }
}

/// Columns of the grid.
pub const VGA_WIDTH: usize = 80;

/// Rows of the grid.
pub const VGA_HEIGHT: usize = 25;

/// Cells of the grid.
pub const VGA_CELLS: usize = 2000;

/// The glyph of an empty cell.
pub const BLANK_GLYPH: u8 = 0x20;

/// A colour attribute: background in the high four bits, foreground in the low.
pub open spec fn entry_color(fg: VgaColor, bg: VgaColor) -> u8 {
    (bg.spec_code() * 16 + fg.spec_code()) as u8
}

/// A cell: attribute in the high byte, glyph in the low byte.
pub open spec fn entry(c: u8, color: u8) -> u16 {
    (color * 256 + c) as u16
}

/// Packs a foreground and a background colour into an attribute byte.
pub fn vga_entry_color(fg: VgaColor, bg: VgaColor) -> (color: u8)
    ensures
        color == entry_color(fg, bg),
{
    let b = bg.code();
    let f = fg.code();
    assert((b << 4 | f) == b * 16 + f) by (bit_vector)
        requires
            b < 16,
            f < 16,
    ;
    b << 4 | f
}

/// Packs a glyph and an attribute byte into a cell.
pub fn vga_entry(c: u8, color: u8) -> (cell: u16)
    ensures
        cell == entry(c, color),
{
    assert((c as u16 | (color as u16) << 8) == color * 256 + c) by (bit_vector);
    c as u16 | (color as u16) << 8
}

/// What a terminal shows and where it will write next.
pub struct Screen {
    /// Row of the cursor.
    pub row: int,
    /// Column of the cursor.
    pub column: int,
    /// Attribute given to the characters written from now on.
    pub color: u8,
    /// The cells, row by row.
    pub cells: Seq<u16>,
}

impl Screen {
    /// Position of the cell in column `x` of row `y` among the cells.
    pub open spec fn index(x: int, y: int) -> int {
        y * VGA_WIDTH + x
    }

    /// The screen with one cell replaced.
    pub open spec fn with_entry(self, cell: u16, x: int, y: int) -> Screen {
        Screen { cells: self.cells.update(Self::index(x, y), cell), ..self }
    }

    /// The screen with every row moved up by one, the top row lost, the bottom
    /// row blank in the current colour, and the cursor `VGA_HEIGHT - 1` rows
    /// further up.
    pub open spec fn scrolled(self) -> Screen {
        Screen {
            row: self.row - (VGA_HEIGHT - 1),
            cells: Seq::new(
                VGA_CELLS as nat,
                |i: int|
                    if i < VGA_CELLS - VGA_WIDTH {
                        self.cells[i + VGA_WIDTH]
                    } else {
                        entry(BLANK_GLYPH, self.color)
                    },
            ),
            ..self
        }
    }

    /// The screen after a line break: the cursor goes to the start of the next
    /// row, and past the last row the screen scrolls.
    pub open spec fn after_new_line(self) -> Screen {
        let moved = Screen { column: 0, row: self.row + 1, ..self };
        if moved.row == VGA_HEIGHT {
            moved.scrolled()
        } else {
            moved
        }
    }

    /// The screen after one byte is written: a line feed breaks the line; any
    /// other byte is shown at the cursor, which then moves right, wraps to the
    /// next row after the last column, and wraps to the top after the last row.
    pub open spec fn after_put_char(self, c: u8) -> Screen {
        if c == 0x0A {
            self.after_new_line()
        } else {
            let shown = self.with_entry(entry(c, self.color), self.column, self.row);
            if self.column + 1 < VGA_WIDTH {
                Screen { column: self.column + 1, ..shown }
            } else if self.row + 1 < VGA_HEIGHT {
                Screen { column: 0, row: self.row + 1, ..shown }
            } else {
                Screen { column: 0, row: 0, ..shown }
            }
        }
    }

    /// The screen after the bytes of `data` are written in order.
    pub open spec fn after_write(self, data: Seq<u8>) -> Screen
        decreases data.len(),
    {
        if data.len() == 0 {
            self
        } else {
            self.after_write(data.drop_last()).after_put_char(data.last())
        }
    }

    /// The state every terminal starts in: cursor at the top left, light grey
    /// on black, all cells blank.
    pub open spec fn cleared() -> Screen {
        let color = entry_color(VgaColor::LightGrey, VgaColor::Black);
        Screen {
            row: 0,
            column: 0,
            color,
            cells: Seq::new(VGA_CELLS as nat, |i: int| entry(BLANK_GLYPH, color)),
        }
    }

    /// What holds of the screen of every terminal: the cursor is inside the
    /// grid, and the grid has `VGA_CELLS` cells.
    pub open spec fn well_formed(self) -> bool {
        &&& 0 <= self.row < VGA_HEIGHT
        &&& 0 <= self.column < VGA_WIDTH
        &&& self.cells.len() == VGA_CELLS
    }
}

/// The text display.
pub struct Terminal {
    row: usize,
    column: usize,
    color: u8,
    buffer: [u16; VGA_CELLS],
}

impl View for Terminal {
    type V = Screen;

    closed spec fn view(&self) -> Screen {
        Screen {
            row: self.row as int,
            column: self.column as int,
            color: self.color,
            cells: self.buffer@,
        }
    }
}

impl Terminal {
    #[verifier::type_invariant]
    spec fn inv(self) -> bool {
        self.row < VGA_HEIGHT && self.column < VGA_WIDTH
    }

    /// A cleared terminal.
    pub fn new() -> (terminal: Terminal)
        ensures
            terminal@ == Screen::cleared(),
    {
        let color = vga_entry_color(VgaColor::LightGrey, VgaColor::Black);
        let terminal = Terminal {
            row: 0,
            column: 0,
            color,
            buffer: [vga_entry(BLANK_GLYPH, color); VGA_CELLS],
        };
        assert(terminal@.cells =~= Screen::cleared().cells);
        terminal
    }

    /// Row of the cursor.
    pub fn row(&self) -> (row: usize)
        ensures
            row == self@.row,
            self@.well_formed(),
    {
        proof {
            use_type_invariant(self);
        }
        self.row
    }

    /// Column of the cursor.
    pub fn column(&self) -> (column: usize)
        ensures
            column == self@.column,
            column < VGA_WIDTH,
    {
        proof {
            use_type_invariant(self);
        }
        self.column
    }

    /// The current attribute byte.
    pub fn color(&self) -> (color: u8)
        ensures
            color == self@.color,
    {
        self.color
    }

    /// The cell in column `x` of row `y`.
    pub fn entry_at(&self, x: usize, y: usize) -> (cell: u16)
        requires
            x < VGA_WIDTH,
            y < VGA_HEIGHT,
        ensures
            cell == self@.cells[Screen::index(x as int, y as int)],
    {
        self.buffer[y * VGA_WIDTH + x]
    }

    /// Resets the terminal: cursor at the top left, light grey on black, all
    /// cells blank.
    pub fn initialize(&mut self)
        ensures
            final(self)@ == Screen::cleared(),
    {
        proof {
            use_type_invariant(&*self);
        }
        self.row = 0;
        self.column = 0;
        self.color = vga_entry_color(VgaColor::LightGrey, VgaColor::Black);
        let blank = vga_entry(BLANK_GLYPH, self.color);
        let mut index: usize = 0;
        while index < VGA_CELLS
            invariant
                index <= VGA_CELLS,
                self.row == 0,
                self.column == 0,
                self.color == entry_color(VgaColor::LightGrey, VgaColor::Black),
                blank == entry(BLANK_GLYPH, self.color),
                forall|i: int| 0 <= i < index ==> self.buffer@[i] == blank,
            decreases VGA_CELLS - index,
        {
            self.buffer[index] = blank;
            index += 1;
        }
        assert(self@.cells =~= Screen::cleared().cells);
    }

    /// Sets the attribute given to the characters written from now on.
    pub fn set_color(&mut self, color: u8)
        ensures
            final(self)@ == (Screen { color, ..old(self)@ }),
    {
        proof {
            use_type_invariant(&*self);
        }
        self.color = color;
    }

    /// Replaces the cell in column `x` of row `y`.
    pub fn set_entry_at(&mut self, cell: u16, x: usize, y: usize)
        requires
            x < VGA_WIDTH,
            y < VGA_HEIGHT,
        ensures
            final(self)@ == old(self)@.with_entry(cell, x as int, y as int),
    {
        proof {
            use_type_invariant(&*self);
        }
        self.buffer[y * VGA_WIDTH + x] = cell;
    }

    /// Shows glyph `c` with attribute `color` in column `x` of row `y`.
    pub fn put_entry_at(&mut self, c: u8, color: u8, x: usize, y: usize)
        requires
            x < VGA_WIDTH,
            y < VGA_HEIGHT,
        ensures
            final(self)@ == old(self)@.with_entry(entry(c, color), x as int, y as int),
    {
        self.set_entry_at(vga_entry(c, color), x, y);
    }

    /// Moves every row up by one and blanks the bottom row; the cursor is left
    /// where it is.
    fn shift_rows(&mut self)
        ensures
            final(self)@.cells == old(self)@.scrolled().cells,
            final(self)@.row == old(self)@.row,
            final(self)@.column == old(self)@.column,
            final(self)@.color == old(self)@.color,
    {
        proof {
            use_type_invariant(&*self);
        }
        let blank = vga_entry(BLANK_GLYPH, self.color);
        let mut index: usize = 0;
        while index < VGA_CELLS - VGA_WIDTH
            invariant
                index <= VGA_CELLS - VGA_WIDTH,
                self.inv(),
                self.row == old(self).row,
                self.column == old(self).column,
                self.color == old(self).color,
                forall|i: int| 0 <= i < index ==> self.buffer@[i] == old(self).buffer@[i + VGA_WIDTH],
                forall|i: int| index <= i < VGA_CELLS ==> self.buffer@[i] == old(self).buffer@[i],
            decreases VGA_CELLS - VGA_WIDTH - index,
        {
            self.buffer[index] = self.buffer[index + VGA_WIDTH];
            index += 1;
        }
        while index < VGA_CELLS
            invariant
                VGA_CELLS - VGA_WIDTH <= index <= VGA_CELLS,
                self.inv(),
                self.row == old(self).row,
                self.column == old(self).column,
                self.color == old(self).color,
                blank == entry(BLANK_GLYPH, self.color),
                forall|i: int|
                    0 <= i < VGA_CELLS - VGA_WIDTH ==> self.buffer@[i] == old(self).buffer@[i
                        + VGA_WIDTH],
                forall|i: int| VGA_CELLS - VGA_WIDTH <= i < index ==> self.buffer@[i] == blank,
            decreases VGA_CELLS - index,
        {
            self.buffer[index] = blank;
            index += 1;
        }
        assert(self@.cells =~= old(self)@.scrolled().cells);
    }

    /// Scrolls by one row. The cursor must stand on the last row; it ends up
    /// `VGA_HEIGHT - 1` rows further up.
    pub fn scroll(&mut self)
        requires
            old(self)@.row >= VGA_HEIGHT - 1,
        ensures
            final(self)@ == old(self)@.scrolled(),
    {
        proof {
            use_type_invariant(&*self);
        }
        self.shift_rows();
        self.row -= VGA_HEIGHT - 1;
    }

    /// Breaks the line.
    pub fn new_line(&mut self)
        ensures
            final(self)@ == old(self)@.after_new_line(),
    {
        proof {
            use_type_invariant(&*self);
        }
        if self.row + 1 == VGA_HEIGHT {
            self.shift_rows();
            self.column = 0;
            self.row = self.row + 1 - (VGA_HEIGHT - 1);
        } else {
            self.column = 0;
            self.row += 1;
        }
    }

    /// Writes one byte at the cursor.
    pub fn put_char(&mut self, c: u8)
        ensures
            final(self)@ == old(self)@.after_put_char(c),
    {
        proof {
            use_type_invariant(&*self);
        }
        if c == 0x0A {
            self.new_line();
        } else {
            self.put_entry_at(c, self.color, self.column, self.row);
            if self.column + 1 < VGA_WIDTH {
                self.column += 1;
            } else if self.row + 1 < VGA_HEIGHT {
                self.column = 0;
                self.row += 1;
            } else {
                self.column = 0;
                self.row = 0;
            }
        }
    }

    /// Writes the bytes of `data` in order.
    pub fn write(&mut self, data: &[u8])
        ensures
            final(self)@ == old(self)@.after_write(data@),
    {
        let mut index: usize = 0;
        assert(data@.take(0) =~= Seq::<u8>::empty());
        while index < data.len()
            invariant
                index <= data.len(),
                self@ == old(self)@.after_write(data@.take(index as int)),
            decreases data.len() - index,
        {
            assert(data@.take(index + 1).drop_last() =~= data@.take(index as int));
            self.put_char(data[index]);
            index += 1;
        }
        assert(data@.take(index as int) =~= data@);
    }

    /// Writes the bytes of `s` in order.
    pub fn write_str(&mut self, s: &str)
        ensures
            final(self)@ == old(self)@.after_write(s.spec_bytes()),
    {
        self.write(s.as_bytes());
    }
}

/// Writing keeps the cursor inside the grid and the grid at its size.
pub proof fn lemma_write_well_formed(screen: Screen, data: Seq<u8>)
    requires
        screen.well_formed(),
    ensures
        screen.after_write(data).well_formed(),
        forall|c: u8| (#[trigger] screen.after_put_char(c)).well_formed(),
        screen.after_new_line().well_formed(),
        Screen::cleared().well_formed(),
    decreases data.len(),
{
    if data.len() > 0 {
        lemma_write_well_formed(screen, data.drop_last());
        lemma_write_well_formed(screen.after_write(data.drop_last()), Seq::empty());
    }
}

/// Writing one piece after another is writing them joined.
pub proof fn lemma_write_joined(screen: Screen, first: Seq<u8>, second: Seq<u8>)
    ensures
        screen.after_write(first).after_write(second) == screen.after_write(first + second),
    decreases second.len(),
{
    if second.len() == 0 {
        assert(first + second =~= first);
    } else {
        lemma_write_joined(screen, first, second.drop_last());
        assert((first + second).drop_last() =~= first + second.drop_last());
    }
}

} // verus!
