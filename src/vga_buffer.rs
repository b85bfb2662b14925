//! The character-cell grid of the text-mode display and the writer that
//! appends text to it, scrolling when a line is full or ends.
use vstd::prelude::*;
use vstd::string::StringSliceAdditionalSpecFns;

verus! {

/// Number of rows of the grid.
pub const BUFFER_HEIGHT: usize = 25;

/// Number of cells in each row of the grid.
pub const BUFFER_WIDTH: usize = 80;

/// The byte that ends a line.
pub const NEWLINE: u8 = 10;

/// The glyph written in place of a byte that the display cannot show.
pub const FALLBACK_GLYPH: u8 = 0xfe;

/// The sixteen colours of the text-mode palette.
#[derive(Clone, Copy, Debug, PartialEq, Eq, Structural)]
pub enum Color {
    Black,
    Blue,
    Green,
    Cyan,
    Red,
    Magenta,
    Brown,
    LightGray,
    DarkGray,
    LightBlue,
    LightGreen,
    LightCyan,
    LightRed,
    Pink,
    Yellow,
    White,
}

/// Palette index of a colour.
pub open spec fn color_index(c: Color) -> u8 {
    match c {
        Color::Black => 0,
        Color::Blue => 1,
        Color::Green => 2,
        Color::Cyan => 3,
        Color::Red => 4,
        Color::Magenta => 5,
        Color::Brown => 6,
        Color::LightGray => 7,
        Color::DarkGray => 8,
        Color::LightBlue => 9,
        Color::LightGreen => 10,
        Color::LightCyan => 11,
        Color::LightRed => 12,
        Color::Pink => 13,
        Color::Yellow => 14,
        Color::White => 15,
    }
}

impl Color {
    /// Palette index of this colour, below 16.
    pub fn index(&self) -> (r: u8)
        ensures
            r == color_index(*self),
            r < 16,
    {
        match self {
            Color::Black => 0,
            Color::Blue => 1,
            Color::Green => 2,
            Color::Cyan => 3,
            Color::Red => 4,
            Color::Magenta => 5,
            Color::Brown => 6,
            Color::LightGray => 7,
            Color::DarkGray => 8,
            Color::LightBlue => 9,
            Color::LightGreen => 10,
            Color::LightCyan => 11,
            Color::LightRed => 12,
            Color::Pink => 13,
            Color::Yellow => 14,
            Color::White => 15,
        }
    }
}

/// A cell attribute: background in the high four bits, foreground in the low four.
#[derive(Clone, Copy, Debug, PartialEq, Eq, Structural)]
pub struct ColorCode(pub u8);

impl ColorCode {
    pub fn new(foreground: Color, background: Color) -> (r: ColorCode)
        ensures
            r.0 == color_index(background) * 16 + color_index(foreground),
    {
        let fg = foreground.index();
        let bg = background.index();
        ColorCode(bg * 16 + fg)
    }
}

/// One cell of the grid: a glyph code and its attribute.
#[derive(Clone, Copy, Debug, PartialEq, Eq, Structural)]
pub struct ScreenChar {
    pub ascii_character: u8,
    pub color_code: ColorCode,
}

/// The glyph that a byte shows as: printable ASCII as itself, anything else
/// as the fallback glyph. A newline never reaches a cell.
pub open spec fn glyph(b: u8) -> u8 {
    if 0x20 <= b <= 0x7e {
        b
    } else {
        FALLBACK_GLYPH
    }
}

/// An empty cell in the given attribute.
pub open spec fn blank(color: ColorCode) -> ScreenChar {
    ScreenChar { ascii_character: 0x20, color_code: color }
}

/// Index into the row-major cell sequence of the cell at `row`, `col`.
pub open spec fn cell_index(row: int, col: int) -> int {
    row * BUFFER_WIDTH + col
}

/// What a writer is: the cells row after row, the cursor column on the last
/// row, and the attribute given to what it writes.
pub struct WriterView {
    pub cells: Seq<ScreenChar>,
    pub col: nat,
    pub color: ColorCode,
}

impl WriterView {
    pub open spec fn wf(self) -> bool {
        &&& self.cells.len() == BUFFER_WIDTH * BUFFER_HEIGHT
        &&& self.col < BUFFER_WIDTH
    }

    /// The cell at `row`, `col`.
    pub open spec fn cell(self, row: int, col: int) -> ScreenChar {
        self.cells[cell_index(row, col)]
    }
}

/// A blank grid with the cursor at the start of the last row.
pub open spec fn blank_view(color: ColorCode) -> WriterView {
    WriterView {
        cells: Seq::new((BUFFER_WIDTH * BUFFER_HEIGHT) as nat, |i: int| blank(color)),
        col: 0,
        color,
    }
}

/// Every row moves up by one, the first is lost, the last is cleared and the
/// cursor goes back to its start.
pub open spec fn scroll(v: WriterView) -> WriterView {
    WriterView {
        cells: Seq::new(
            (BUFFER_WIDTH * BUFFER_HEIGHT) as nat,
            |i: int|
                if i < BUFFER_WIDTH * (BUFFER_HEIGHT - 1) {
                    v.cells[i + BUFFER_WIDTH]
                } else {
                    blank(v.color)
                },
        ),
        col: 0,
        color: v.color,
    }
}

/// The glyph of `b` put at the cursor, which then moves one cell right.
pub open spec fn put(v: WriterView, b: u8) -> WriterView {
    WriterView {
        cells: v.cells.update(
            cell_index(BUFFER_HEIGHT - 1, v.col as int),
            ScreenChar { ascii_character: glyph(b), color_code: v.color },
        ),
        col: v.col + 1,
        color: v.color,
    }
}

/// Writing one byte: a newline scrolls; any other byte is put at the cursor,
/// and a row that this fills scrolls the same way.
pub open spec fn step(v: WriterView, b: u8) -> WriterView {
    if b == NEWLINE {
        scroll(v)
    } else if v.col + 1 == BUFFER_WIDTH {
        scroll(put(v, b))
    } else {
        put(v, b)
    }
}

/// Writing the bytes of `s` one after the other.
pub open spec fn write_all(v: WriterView, s: Seq<u8>) -> WriterView
    decreases s.len(),
{
    if s.len() == 0 {
        v
    } else {
        step(write_all(v, s.drop_last()), s.last())
    }
}

/// Writing keeps a well-formed writer well formed, in the same attribute.
pub proof fn lemma_write_all_wf(v: WriterView, s: Seq<u8>)
    requires
        v.wf(),
    ensures
        write_all(v, s).wf(),
        write_all(v, s).color == v.color,
    decreases s.len(),
{
    if s.len() > 0 {
        lemma_write_all_wf(v, s.drop_last());
    }
}

/// Writing two byte sequences one after the other is writing their
/// concatenation.
pub proof fn lemma_write_all_append(v: WriterView, a: Seq<u8>, b: Seq<u8>)
    ensures
        write_all(write_all(v, a), b) == write_all(v, a + b),
    decreases b.len(),
{
    if b.len() == 0 {
        assert(a + b =~= a);
    } else {
        lemma_write_all_append(v, a, b.drop_last());
        assert((a + b).drop_last() =~= a + b.drop_last());
        assert((a + b).last() == b.last());
    }
}

/// The grid and its cursor. The cursor is always on the last row, strictly
/// left of its end.
pub struct Writer {
    column_position: usize,
    color_code: ColorCode,
    buffer: Vec<ScreenChar>,
}

impl View for Writer {
    type V = WriterView;

    closed spec fn view(&self) -> WriterView {
        WriterView { cells: self.buffer@, col: self.column_position as nat, color: self.color_code }
    }
}

impl Writer {
    pub open spec fn wf(&self) -> bool {
        self@.wf()
    }

    /// A writer over a blank grid.
    pub fn new(color_code: ColorCode) -> (w: Writer)
        ensures
            w@ == blank_view(color_code),
            w.wf(),
    {
        let total: usize = BUFFER_WIDTH * BUFFER_HEIGHT;
        let mut buffer: Vec<ScreenChar> = Vec::new();
        let mut i: usize = 0;
        while i < total
            invariant
                i <= total,
                total == BUFFER_WIDTH * BUFFER_HEIGHT,
                buffer@.len() == i,
                forall|j: int| 0 <= j < i ==> buffer@[j] == blank(color_code),
            decreases total - i,
        {
            buffer.push(ScreenChar { ascii_character: 0x20, color_code });
            i += 1;
        }
        let w = Writer { column_position: 0, color_code, buffer };
        assert(w@.cells =~= blank_view(color_code).cells);
        w
    }

    /// The column at which the next glyph goes.
    pub fn column_position(&self) -> (r: usize)
        ensures
            r == self@.col,
    {
        self.column_position
    }

    /// The attribute given to written glyphs.
    pub fn color_code(&self) -> (r: ColorCode)
        ensures
            r == self@.color,
    {
        self.color_code
    }

    /// The cell at `row`, `col`.
    pub fn cell(&self, row: usize, col: usize) -> (r: ScreenChar)
        requires
            self.wf(),
            row < BUFFER_HEIGHT,
            col < BUFFER_WIDTH,
        ensures
            r == self@.cell(row as int, col as int),
    {
        self.buffer[row * BUFFER_WIDTH + col]
    }

    fn new_line(&mut self)
        requires
            old(self).buffer@.len() == BUFFER_WIDTH * BUFFER_HEIGHT,
        ensures
            final(self)@ == scroll(old(self)@),
    {
        let kept: usize = BUFFER_WIDTH * (BUFFER_HEIGHT - 1);
        let total: usize = BUFFER_WIDTH * BUFFER_HEIGHT;
        let mut i: usize = 0;
        while i < kept
            invariant
                i <= kept,
                kept == BUFFER_WIDTH * (BUFFER_HEIGHT - 1),
                total == BUFFER_WIDTH * BUFFER_HEIGHT,
                self.buffer@.len() == total,
                self.color_code == old(self).color_code,
                forall|j: int| 0 <= j < i ==> self.buffer@[j] == old(self).buffer@[j + BUFFER_WIDTH],
                forall|j: int| i <= j < total ==> self.buffer@[j] == old(self).buffer@[j],
            decreases kept - i,
        {
            let c = self.buffer[i + BUFFER_WIDTH];
            self.buffer.set(i, c);
            i += 1;
        }
        while i < total
            invariant
                kept <= i <= total,
                kept == BUFFER_WIDTH * (BUFFER_HEIGHT - 1),
                total == BUFFER_WIDTH * BUFFER_HEIGHT,
                self.buffer@.len() == total,
                self.color_code == old(self).color_code,
                forall|j: int| 0 <= j < kept ==> self.buffer@[j] == old(self).buffer@[j + BUFFER_WIDTH],
                forall|j: int| kept <= j < i ==> self.buffer@[j] == blank(self.color_code),
            decreases total - i,
        {
            self.buffer.set(i, ScreenChar { ascii_character: 0x20, color_code: self.color_code });
            i += 1;
        }
        self.column_position = 0;
        assert(self@.cells =~= scroll(old(self)@).cells);
    }

    /// Writes one byte: a newline scrolls, any other byte goes to the cursor
    /// as its glyph, and a row that fills scrolls.
    pub fn write_byte(&mut self, byte: u8)
        requires
            old(self).wf(),
        ensures
            final(self).wf(),
            final(self)@ == step(old(self)@, byte),
    {
        if byte == NEWLINE {
            self.new_line();
        } else {
            let g: u8 = if 0x20 <= byte && byte <= 0x7e {
                byte
            } else {
                FALLBACK_GLYPH
            };
            let idx: usize = (BUFFER_HEIGHT - 1) * BUFFER_WIDTH + self.column_position;
            self.buffer.set(idx, ScreenChar { ascii_character: g, color_code: self.color_code });
            self.column_position = self.column_position + 1;
            assert(self@ == put(old(self)@, byte));
            if self.column_position == BUFFER_WIDTH {
                self.new_line();
            }
        }
    }

    /// Writes the bytes one after the other.
    pub fn write_bytes(&mut self, bytes: &[u8])
        requires
            old(self).wf(),
        ensures
            final(self).wf(),
            final(self)@ == write_all(old(self)@, bytes@),
    {
        let mut i: usize = 0;
        while i < bytes.len()
            invariant
                i <= bytes@.len(),
                self.wf(),
                self@ == write_all(old(self)@, bytes@.subrange(0, i as int)),
            decreases bytes@.len() - i,
        {
            assert(bytes@.subrange(0, i + 1).drop_last() =~= bytes@.subrange(0, i as int));
            self.write_byte(bytes[i]);
            i += 1;
        }
        assert(bytes@.subrange(0, bytes@.len() as int) =~= bytes@);
    }

    /// Writes the bytes of a string.
    pub fn write_string(&mut self, s: &str)
        requires
            old(self).wf(),
        ensures
            final(self).wf(),
            final(self)@ == write_all(old(self)@, s.spec_bytes()),
    {
        self.write_bytes(s.as_bytes());
    }
}

} // verus!
