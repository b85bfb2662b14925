//! The rows of text that a byte stream fills, and what a writer's grid shows
//! of them after the stream has been written.
use vstd::prelude::*;
use crate::vga_buffer::{
    blank, blank_view, cell_index, glyph, put, scroll, step, write_all, ScreenChar, WriterView,
    BUFFER_HEIGHT, BUFFER_WIDTH, FALLBACK_GLYPH, NEWLINE,
};

verus! {

/// The rows after one more byte: a newline opens a new row; any other byte
/// adds its glyph to the last row, and a row that this fills is followed by a
/// new one.
pub open spec fn next_rows(rows: Seq<Seq<u8>>, b: u8) -> Seq<Seq<u8>> {
    if b == NEWLINE {
        rows.push(Seq::empty())
    } else {
        let cur = rows.last().push(glyph(b));
        if cur.len() == BUFFER_WIDTH {
            rows.drop_last().push(cur).push(Seq::empty())
        } else {
            rows.drop_last().push(cur)
        }
    }
}

/// The logical rows of a byte stream, in order; the last is the one still
/// being filled.
pub open spec fn rows_of(s: Seq<u8>) -> Seq<Seq<u8>>
    decreases s.len(),
{
    if s.len() == 0 {
        seq![Seq::empty()]
    } else {
        next_rows(rows_of(s.drop_last()), s.last())
    }
}

/// Row `i` of `rows`, or an empty row where there is none.
pub open spec fn row_at(rows: Seq<Seq<u8>>, i: int) -> Seq<u8> {
    if 0 <= i < rows.len() {
        rows[i]
    } else {
        Seq::empty()
    }
}

/// Cell `c` of a grid row that shows `row`.
pub open spec fn rendered(row: Seq<u8>, color: crate::vga_buffer::ColorCode, c: int) -> ScreenChar {
    if c < row.len() {
        ScreenChar { ascii_character: row[c], color_code: color }
    } else {
        blank(color)
    }
}

/// The grid shows the last `BUFFER_HEIGHT` rows of `rows` in order, the
/// last of them on the bottom row, blank rows above where there are fewer,
/// and the cursor stands at the end of the last row.
pub open spec fn shows(v: WriterView, rows: Seq<Seq<u8>>) -> bool {
    &&& v.cells.len() == BUFFER_WIDTH * BUFFER_HEIGHT
    &&& rows.len() >= 1
    &&& v.col == rows.last().len()
    &&& forall|r: int, c: int|
        0 <= r < BUFFER_HEIGHT && 0 <= c < BUFFER_WIDTH ==> #[trigger] v.cell(r, c) == rendered(
            row_at(rows, rows.len() - BUFFER_HEIGHT + r),
            v.color,
            c,
        )
}

proof fn lemma_scroll_shows(v: WriterView, rows: Seq<Seq<u8>>)
    requires
        shows(v, rows),
    ensures
        shows(scroll(v), rows.push(Seq::empty())),
{
    let w = scroll(v);
    let l = rows.push(Seq::empty());
    assert forall|r: int, c: int| 0 <= r < BUFFER_HEIGHT && 0 <= c < BUFFER_WIDTH implies #[trigger] w.cell(
        r,
        c,
    ) == rendered(row_at(l, l.len() - BUFFER_HEIGHT + r), w.color, c) by {
        if r < BUFFER_HEIGHT - 1 {
            assert(w.cell(r, c) == v.cell(r + 1, c));
            let k = rows.len() - BUFFER_HEIGHT + r + 1;
            assert(row_at(l, k) == row_at(rows, k));
        }
    }
}

proof fn lemma_put_shows(v: WriterView, rows: Seq<Seq<u8>>, b: u8)
    requires
        shows(v, rows),
        v.col < BUFFER_WIDTH,
    ensures
        shows(put(v, b), rows.drop_last().push(rows.last().push(glyph(b)))),
{
    let w = put(v, b);
    let cur = rows.last().push(glyph(b));
    let l = rows.drop_last().push(cur);
    assert forall|r: int, c: int| 0 <= r < BUFFER_HEIGHT && 0 <= c < BUFFER_WIDTH implies #[trigger] w.cell(
        r,
        c,
    ) == rendered(row_at(l, l.len() - BUFFER_HEIGHT + r), w.color, c) by {
        assert(v.cell(r, c) == rendered(
            row_at(rows, rows.len() - BUFFER_HEIGHT + r),
            v.color,
            c,
        ));
        if r < BUFFER_HEIGHT - 1 {
            let k = rows.len() - BUFFER_HEIGHT + r;
            assert(row_at(l, k) == row_at(rows, k));
        }
    }
    assert(l.last() == cur);
}

proof fn lemma_step_shows(v: WriterView, rows: Seq<Seq<u8>>, b: u8)
    requires
        shows(v, rows),
        v.col < BUFFER_WIDTH,
    ensures
        shows(step(v, b), next_rows(rows, b)),
        step(v, b).col < BUFFER_WIDTH,
{
    if b == NEWLINE {
        lemma_scroll_shows(v, rows);
    } else {
        lemma_put_shows(v, rows, b);
        if v.col + 1 == BUFFER_WIDTH {
            lemma_scroll_shows(put(v, b), rows.drop_last().push(rows.last().push(glyph(b))));
        }
    }
}

/// Scrolling keeps the text in order: after any byte stream is written to a
/// blank grid, its rows show the last `BUFFER_HEIGHT` logical rows of the
/// stream, in order, and the cursor stands at the end of the last one.
pub proof fn lemma_screen_shows_last_rows(color: crate::vga_buffer::ColorCode, s: Seq<u8>)
    ensures
        shows(write_all(blank_view(color), s), rows_of(s)),
        write_all(blank_view(color), s).wf(),
    decreases s.len(),
{
    if s.len() == 0 {
        let v = blank_view(color);
        let l = rows_of(s);
        assert forall|r: int, c: int| 0 <= r < BUFFER_HEIGHT && 0 <= c < BUFFER_WIDTH implies #[trigger] v.cell(
            r,
            c,
        ) == rendered(row_at(l, l.len() - BUFFER_HEIGHT + r), v.color, c) by {
            assert(0 <= crate::vga_buffer::cell_index(r, c) < BUFFER_WIDTH * BUFFER_HEIGHT);
        }
    } else {
        lemma_screen_shows_last_rows(color, s.drop_last());
        lemma_step_shows(write_all(blank_view(color), s.drop_last()), rows_of(s.drop_last()), s.last());
    }
}

/// A byte that the display cannot show advances the cursor exactly as a
/// printable one does: it is written as the fallback glyph, never dropped.
pub proof fn lemma_fallback_advances_like_printable(v: WriterView, b: u8, p: u8)
    requires
        v.wf(),
        b != NEWLINE,
        !(0x20 <= b <= 0x7e),
        0x20 <= p <= 0x7e,
    ensures
        step(v, b) == step(v, FALLBACK_GLYPH),
        step(v, b).col == step(v, p).col,
        step(v, b).wf(),
{
}

/// Printable text that fits in the rest of the cursor's row reads back from
/// that row, glyph for glyph, in the writer's attribute, and the cursor
/// moves past it.
pub proof fn lemma_text_reads_back(v: WriterView, s: Seq<u8>)
    requires
        v.wf(),
        v.col + s.len() < BUFFER_WIDTH,
        forall|i: int| 0 <= i < s.len() ==> 0x20 <= #[trigger] s[i] <= 0x7e,
    ensures
        write_all(v, s).col == v.col + s.len(),
        write_all(v, s).color == v.color,
        write_all(v, s).wf(),
        forall|i: int|
            0 <= i < s.len() ==> #[trigger] write_all(v, s).cell(BUFFER_HEIGHT - 1, v.col + i)
                == (ScreenChar { ascii_character: s[i], color_code: v.color }),
    decreases s.len(),
{
    if s.len() > 0 {
        let t = s.drop_last();
        lemma_text_reads_back(v, t);
        let w = write_all(v, t);
        let last = s[s.len() - 1];
        assert(0x20 <= last <= 0x7e);
        assert(write_all(v, s) == put(w, last));
        assert forall|i: int| 0 <= i < s.len() implies #[trigger] write_all(v, s).cell(
            BUFFER_HEIGHT - 1,
            v.col + i,
        ) == (ScreenChar { ascii_character: s[i], color_code: v.color }) by {
            let pw = put(w, last);
            let at = cell_index(BUFFER_HEIGHT - 1, v.col + i);
            assert(0 <= at < w.cells.len());
            if i < t.len() {
                assert(at != cell_index(BUFFER_HEIGHT - 1, w.col as int));
                assert(pw.cells[at] == w.cells[at]);
                assert(t[i] == s[i]);
                assert(w.cell(BUFFER_HEIGHT - 1, v.col + i) == (ScreenChar {
                    ascii_character: t[i],
                    color_code: v.color,
                }));
            } else {
                assert(at == cell_index(BUFFER_HEIGHT - 1, w.col as int));
            }
        }
    }
}

} // verus!
