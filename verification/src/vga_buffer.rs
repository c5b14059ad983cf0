//! Model of the text-mode screen sink: a fixed grid of colored characters
//! written bottom-row-first, scrolling one line up on each newline. The grid
//! is held as plain values; the surrounding kernel is the one that copies it
//! into memory-mapped video memory.

use vstd::prelude::*;
use vstd::string::StringSliceAdditionalSpecFns;

verus! {

/// Number of text rows on the screen.
pub const BUFFER_HEIGHT: usize = 25;

/// Number of text columns on the screen.
pub const BUFFER_WIDTH: usize = 80;

/// The 16 standard text-mode palette colors.
#[derive(Clone, Copy, Debug, PartialEq, Eq, Structural)]
pub enum Color {
    Black,
    Blue,
    Green,
    Cyan,
    Red,
    Magenta,
    Brown,
    LightGray,
    DarkGray,
    LightBlue,
    LightGreen,
    LightCyan,
    LightRed,
    Pink,
    Yellow,
    White,
}

impl Color {
    /// The 4-bit palette number of this color.
    pub open spec fn spec_number(self) -> u8 {
        match self {
            Color::Black => 0,
            Color::Blue => 1,
            Color::Green => 2,
            Color::Cyan => 3,
            Color::Red => 4,
            Color::Magenta => 5,
            Color::Brown => 6,
            Color::LightGray => 7,
            Color::DarkGray => 8,
            Color::LightBlue => 9,
            Color::LightGreen => 10,
            Color::LightCyan => 11,
            Color::LightRed => 12,
            Color::Pink => 13,
            Color::Yellow => 14,
            Color::White => 15,
        }
    }

    /// The 4-bit palette number of this color.
    #[verifier::when_used_as_spec(spec_number)]
    pub fn number(self) -> (n: u8)
        ensures
            n == self.spec_number(),
            n < 16,
    {
        match self {
            Color::Black => 0,
            Color::Blue => 1,
            Color::Green => 2,
            Color::Cyan => 3,
            Color::Red => 4,
            Color::Magenta => 5,
            Color::Brown => 6,
            Color::LightGray => 7,
            Color::DarkGray => 8,
            Color::LightBlue => 9,
            Color::LightGreen => 10,
            Color::LightCyan => 11,
            Color::LightRed => 12,
            Color::Pink => 13,
            Color::Yellow => 14,
            Color::White => 15,
        }
    }
}

/// A foreground/background color pair packed into one attribute byte, with
/// the background in the upper four bits.
#[derive(Clone, Copy, Debug, PartialEq, Eq, Structural)]
pub struct ColorCode(u8);

impl ColorCode {
    /// The packed attribute byte.
    pub closed spec fn value(self) -> u8 {
        self.0
    }

    /// Packs a foreground and a background color into one attribute byte.
    pub fn new(foreground: Color, background: Color) -> (c: ColorCode)
        ensures
            c.value() == background.spec_number() * 16 + foreground.spec_number(),
    {
        let fg = foreground.number();
        let bg = background.number();
        proof {
            assert((bg << 4u8) | fg == bg * 16 + fg) by (bit_vector)
                requires
                    fg < 16 && bg < 16,
            ;
        }
        ColorCode((bg << 4u8) | fg)
    }
}

/// One character cell: an ascii byte and its color attribute.
#[derive(Clone, Copy, Debug, PartialEq, Eq, Structural)]
pub struct ScreenChar {
    pub ascii_character: u8,
    pub color_code: ColorCode,
}

/// Mathematical state of the screen: the rows of cells, the cursor column in
/// the bottom row, and the current color attribute.
pub struct Screen {
    pub rows: Seq<Seq<ScreenChar>>,
    pub column: int,
    pub color: ColorCode,
}

/// The blank cell used when a row is cleared.
pub open spec fn blank_char(color: ColorCode) -> ScreenChar {
    ScreenChar { ascii_character: 32, color_code: color }
}

/// A screen of the fixed dimensions with the cursor inside the bottom row.
pub open spec fn screen_wf(s: Screen) -> bool {
    &&& s.rows.len() == BUFFER_HEIGHT
    &&& forall|r: int| 0 <= r < s.rows.len() ==> (#[trigger] s.rows[r]).len() == BUFFER_WIDTH
    &&& 0 <= s.column <= BUFFER_WIDTH
}

/// Row `row` replaced by blank cells.
pub open spec fn screen_clear_row(s: Screen, row: int) -> Screen {
    Screen {
        rows: s.rows.update(row, Seq::new(BUFFER_WIDTH as nat, |c: int| blank_char(s.color))),
        ..s
    }
}

/// Every row moved one line up, the bottom row cleared, and the cursor moved
/// to the start of the bottom row.
pub open spec fn screen_new_line(s: Screen) -> Screen {
    Screen {
        rows: Seq::new(
            s.rows.len(),
            |r: int|
                if r < s.rows.len() - 1 {
                    s.rows[r + 1]
                } else {
                    Seq::new(BUFFER_WIDTH as nat, |c: int| blank_char(s.color))
                },
        ),
        column: 0,
        color: s.color,
    }
}

/// One byte written at the cursor: a newline scrolls, any other byte lands in
/// the bottom row (after a scroll when the row is full) and advances the
/// cursor.
pub open spec fn screen_write_byte(s: Screen, byte: u8) -> Screen {
    if byte == 10 {
        screen_new_line(s)
    } else {
        let s1 = if s.column >= BUFFER_WIDTH {
            screen_new_line(s)
        } else {
            s
        };
        Screen {
            rows: s1.rows.update(
                BUFFER_HEIGHT - 1,
                s1.rows[BUFFER_HEIGHT - 1].update(
                    s1.column,
                    ScreenChar { ascii_character: byte, color_code: s1.color },
                ),
            ),
            column: s1.column + 1,
            color: s1.color,
        }
    }
}

/// A byte as the screen shows it: printable ascii and newline pass through,
/// anything else becomes the block character 0xfe.
pub open spec fn printable_byte(byte: u8) -> u8 {
    if (32 <= byte <= 126) || byte == 10 {
        byte
    } else {
        254
    }
}

/// `count` block characters written one after the other.
pub open spec fn screen_write_blocks(s: Screen, count: int) -> Screen
    decreases count,
{
    if count <= 0 {
        s
    } else {
        screen_write_blocks(screen_write_byte(s, 254), count - 1)
    }
}

/// How many bytes the utf-8 encoding of a character takes.
pub open spec fn char_utf8_len(c: char) -> int {
    if (c as u32) < 0x80 {
        1
    } else if (c as u32) < 0x800 {
        2
    } else if (c as u32) < 0x10000 {
        3
    } else {
        4
    }
}

/// One character written as the screen shows it: printable ascii and newline
/// land as themselves, anything else as one block character per byte of its
/// utf-8 encoding.
pub open spec fn screen_write_char(s: Screen, c: char) -> Screen {
    if (32 <= (c as u32) <= 126) || (c as u32) == 10 {
        screen_write_byte(s, (c as u32) as u8)
    } else {
        screen_write_blocks(s, char_utf8_len(c))
    }
}

/// A whole byte string written left to right, each byte sanitized first.
pub open spec fn screen_write_bytes(s: Screen, bytes: Seq<u8>) -> Screen
    decreases bytes.len(),
{
    if bytes.len() == 0 {
        s
    } else {
        screen_write_bytes(screen_write_byte(s, printable_byte(bytes[0])), bytes.drop_first())
    }
}

/// The text sink: tracks the cursor column, the current color, and the grid
/// of cells.
pub struct Writer {
    column_position: usize,
    color_code: ColorCode,
    buffer: Vec<Vec<ScreenChar>>,
}

impl View for Writer {
    type V = Screen;

    closed spec fn view(&self) -> Screen {
        Screen {
            rows: self.buffer@.map_values(|row: Vec<ScreenChar>| row@),
            column: self.column_position as int,
            color: self.color_code,
        }
    }
}

impl Writer {
    /// A blank screen with the cursor at the start of the bottom row.
    pub fn new(color_code: ColorCode) -> (w: Writer)
        ensures
            screen_wf(w@),
            w@.column == 0,
            w@.color == color_code,
            forall|r: int, c: int|
                0 <= r < BUFFER_HEIGHT && 0 <= c < BUFFER_WIDTH ==> w@.rows[r][c] == blank_char(
                    color_code,
                ),
    {
        let mut buffer: Vec<Vec<ScreenChar>> = Vec::new();
        let blank = ScreenChar { ascii_character: 32, color_code };
        let mut r: usize = 0;
        while r < BUFFER_HEIGHT
            invariant
                r <= BUFFER_HEIGHT,
                buffer@.len() == r,
                blank == blank_char(color_code),
                forall|i: int| 0 <= i < r ==> (#[trigger] buffer@[i]).len() == BUFFER_WIDTH,
                forall|i: int, j: int|
                    0 <= i < r && 0 <= j < BUFFER_WIDTH ==> buffer@[i][j] == blank_char(color_code),
            decreases BUFFER_HEIGHT - r,
        {
            let mut row: Vec<ScreenChar> = Vec::new();
            let mut c: usize = 0;
            while c < BUFFER_WIDTH
                invariant
                    c <= BUFFER_WIDTH,
                    row@.len() == c,
                    blank == blank_char(color_code),
                    forall|j: int| 0 <= j < c ==> row@[j] == blank_char(color_code),
                decreases BUFFER_WIDTH - c,
            {
                row.push(blank);
                c = c + 1;
            }
            buffer.push(row);
            r = r + 1;
        }
        let w = Writer { column_position: 0, color_code, buffer };
        proof {
            assert(w@.rows.len() == BUFFER_HEIGHT);
        }
        w
    }

    /// The cell at a given position, for reading the screen back.
    pub fn char_at(&self, row: usize, col: usize) -> (ch: ScreenChar)
        requires
            screen_wf(self@),
            row < BUFFER_HEIGHT,
            col < BUFFER_WIDTH,
        ensures
            ch == self@.rows[row as int][col as int],
    {
        proof {
            assert(self@.rows.len() == self.buffer@.len());
            assert(self@.rows[row as int] == self.buffer@[row as int]@);
        }
        self.buffer[row][col]
    }

    /// Fills one row with blank cells.
    pub fn clear_row(&mut self, row: usize)
        requires
            screen_wf(old(self)@),
            row < BUFFER_HEIGHT,
        ensures
            screen_wf(final(self)@),
            final(self)@ == screen_clear_row(old(self)@, row as int),
    {
        let blank = ScreenChar { ascii_character: 32, color_code: self.color_code };
        let mut col: usize = 0;
        while col < BUFFER_WIDTH
            invariant
                screen_wf(old(self)@),
                col <= BUFFER_WIDTH,
                row < BUFFER_HEIGHT,
                self.buffer@.len() == old(self).buffer@.len(),
                self.column_position == old(self).column_position,
                self.color_code == old(self).color_code,
                blank == blank_char(old(self)@.color),
                forall|i: int|
                    0 <= i < BUFFER_HEIGHT && i != row ==> self@.rows[i] == old(self)@.rows[i],
                self@.rows[row as int].len() == BUFFER_WIDTH,
                forall|j: int| 0 <= j < col ==> self@.rows[row as int][j] == blank,
                forall|j: int|
                    col <= j < BUFFER_WIDTH ==> self@.rows[row as int][j] == old(
                        self,
                    )@.rows[row as int][j],
            decreases BUFFER_WIDTH - col,
        {
            proof {
                assert(self@.rows.len() == self.buffer@.len());
                assert(self@.rows[row as int] == self.buffer@[row as int]@);
            }
            self.buffer[row][col] = blank;
            proof {
                assert(self@.rows[row as int] =~= self.buffer@[row as int]@);
                assert forall|i: int| 0 <= i < BUFFER_HEIGHT && i != row implies self@.rows[i]
                    == old(self)@.rows[i] by {
                    assert(self@.rows[i] == self.buffer@[i]@);
                }
            }
            col = col + 1;
        }
        proof {
            assert(final(self)@.rows =~~= screen_clear_row(old(self)@, row as int).rows);
        }
    }

    /// Scrolls the screen one line up, clears the bottom row, and returns the
    /// cursor to the start of that row.
    pub fn new_line(&mut self)
        requires
            screen_wf(old(self)@),
        ensures
            screen_wf(final(self)@),
            final(self)@ == screen_new_line(old(self)@),
    {
        proof {
            assert forall|i: int| 0 <= i < BUFFER_HEIGHT implies old(self)@.rows[i]
                == #[trigger] self.buffer@[i]@ by {}
        }
        let mut row: usize = 1;
        while row < BUFFER_HEIGHT
            invariant
                screen_wf(old(self)@),
                1 <= row <= BUFFER_HEIGHT,
                self.buffer@.len() == BUFFER_HEIGHT,
                self.column_position == old(self).column_position,
                self.color_code == old(self).color_code,
                forall|i: int|
                    0 <= i < row - 1 ==> #[trigger] self.buffer@[i]@ == old(self)@.rows[i + 1],
                forall|i: int|
                    row - 1 <= i < BUFFER_HEIGHT ==> #[trigger] self.buffer@[i]@ == old(
                        self,
                    )@.rows[i],
            decreases BUFFER_HEIGHT - row,
        {
            let mut col: usize = 0;
            while col < BUFFER_WIDTH
                invariant
                    screen_wf(old(self)@),
                    1 <= row < BUFFER_HEIGHT,
                    col <= BUFFER_WIDTH,
                    self.buffer@.len() == BUFFER_HEIGHT,
                    self.column_position == old(self).column_position,
                    self.color_code == old(self).color_code,
                    forall|i: int|
                        0 <= i < row - 1 ==> #[trigger] self.buffer@[i]@ == old(self)@.rows[i + 1],
                    forall|i: int|
                        row <= i < BUFFER_HEIGHT ==> #[trigger] self.buffer@[i]@ == old(
                            self,
                        )@.rows[i],
                    self.buffer@[row - 1]@.len() == BUFFER_WIDTH,
                    forall|j: int|
                        0 <= j < col ==> #[trigger] self.buffer@[row - 1]@[j] == old(
                            self,
                        )@.rows[row as int][j],
                    forall|j: int|
                        col <= j < BUFFER_WIDTH ==> #[trigger] self.buffer@[row - 1]@[j] == old(
                            self,
                        )@.rows[row - 1][j],
                decreases BUFFER_WIDTH - col,
            {
                let ch = self.buffer[row][col];
                self.buffer[row - 1][col] = ch;
                col = col + 1;
            }
            proof {
                assert(self.buffer@[row - 1]@ =~= old(self)@.rows[row as int]);
            }
            row = row + 1;
        }
        proof {
            assert forall|i: int| 0 <= i < BUFFER_HEIGHT implies self@.rows[i]
                == #[trigger] self.buffer@[i]@ by {}
            assert(screen_wf(self@));
        }
        self.clear_row(BUFFER_HEIGHT - 1);
        self.column_position = 0;
        proof {
            assert(final(self)@.rows =~~= screen_new_line(old(self)@).rows);
        }
    }

    /// Writes one byte at the cursor in the bottom row; a newline scrolls, a
    /// full row scrolls before the byte lands.
    pub fn write_byte(&mut self, byte: u8)
        requires
            screen_wf(old(self)@),
        ensures
            screen_wf(final(self)@),
            final(self)@ == screen_write_byte(old(self)@, byte),
    {
        if byte == 10 {
            self.new_line();
        } else {
            if self.column_position >= BUFFER_WIDTH {
                self.new_line();
            }
            let row = BUFFER_HEIGHT - 1;
            let col = self.column_position;
            let color_code = self.color_code;
            proof {
                assert(self@.rows.len() == self.buffer@.len());
                assert(self@.rows[row as int] == self.buffer@[row as int]@);
            }
            self.buffer[row][col] = ScreenChar { ascii_character: byte, color_code };
            self.column_position = self.column_position + 1;
            proof {
                assert(final(self)@.rows =~~= screen_write_byte(old(self)@, byte).rows);
            }
        }
    }

    /// Writes one character: printable ascii and newline as themselves, any
    /// other character as one block character per byte of its utf-8 encoding.
    pub fn write_char(&mut self, c: char)
        requires
            screen_wf(old(self)@),
        ensures
            screen_wf(final(self)@),
            final(self)@ == screen_write_char(old(self)@, c),
    {
        let code = c as u32;
        if (32 <= code && code <= 126) || code == 10 {
            self.write_byte(code as u8);
        } else {
            let count: u32 = if code < 0x80 {
                1
            } else if code < 0x800 {
                2
            } else if code < 0x10000 {
                3
            } else {
                4
            };
            let mut written: u32 = 0;
            while written < count
                invariant
                    screen_wf(self@),
                    written <= count,
                    screen_write_blocks(old(self)@, count as int) == screen_write_blocks(
                        self@,
                        count - written,
                    ),
                decreases count - written,
            {
                self.write_byte(254);
                written = written + 1;
            }
        }
    }

    /// Writes a whole string, sanitizing every byte that is neither printable
    /// ascii nor a newline into the block character.
    pub fn write_string(&mut self, s: &str)
        requires
            screen_wf(old(self)@),
        ensures
            screen_wf(final(self)@),
            final(self)@ == screen_write_bytes(old(self)@, s.spec_bytes()),
    {
        let bytes = s.as_bytes();
        proof {
            assert(bytes@.skip(0) =~= bytes@);
        }
        let mut i: usize = 0;
        while i < bytes.len()
            invariant
                screen_wf(self@),
                i <= bytes@.len(),
                bytes@ == s.spec_bytes(),
                screen_write_bytes(old(self)@, s.spec_bytes()) == screen_write_bytes(
                    self@,
                    bytes@.skip(i as int),
                ),
            decreases bytes@.len() - i,
        {
            let byte = bytes[i];
            proof {
                assert(bytes@.skip(i as int)[0] == byte);
                assert(bytes@.skip(i as int).drop_first() =~= bytes@.skip(i as int + 1));
            }
            if (32 <= byte && byte <= 126) || byte == 10 {
                self.write_byte(byte);
            } else {
                self.write_byte(254);
            }
            i = i + 1;
        }
        proof {
            assert(bytes@.skip(i as int) =~= Seq::<u8>::empty());
        }
    }
}

} // verus!
