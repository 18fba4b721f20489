//! Table layout: column widths, hard wrapping of cell text, row heights.
//!
//! All columns share one width. A cell that is wider than its column is cut
//! into pieces of exactly that width, the last piece possibly shorter, with
//! no regard for word boundaries. A row is twice as tall as its tallest
//! cell, which leaves a blank separator under every line of text.

use vstd::prelude::*;
use vstd::string::*;

verus! {

/// The number of columns of the table.
pub const COLUMN_COUNT: u16 = 5;

/// The pieces that a text of `len` characters is cut into at `width`.
/// At width zero nothing is cut: a text that is not empty stays whole.
pub open spec fn chunk_count(len: nat, width: nat) -> nat {
    if width == 0 {
        if len == 0 {
            0
        } else {
            1
        }
    } else if len % width == 0 {
        len / width
    } else {
        len / width + 1
    }
}

/// Piece number `i` of `s` cut at `width`.
pub open spec fn chunk(s: Seq<char>, width: nat, i: int) -> Seq<char> {
    if width == 0 {
        s
    } else if (i + 1) * width <= s.len() {
        s.subrange(i * width, (i + 1) * width)
    } else {
        s.subrange(i * width, s.len() as int)
    }
}

/// The lines of a cell: `s` cut at `width`. The empty text has no lines.
pub open spec fn wrapped(s: Seq<char>, width: nat) -> Seq<Seq<char>> {
    Seq::new(chunk_count(s.len(), width), |i: int| chunk(s, width, i))
}

/// The lines that a cell takes up in its row: an empty cell still takes one.
pub open spec fn line_count(s: Seq<char>, width: nat) -> nat {
    if chunk_count(s.len(), width) == 0 {
        1
    } else {
        chunk_count(s.len(), width)
    }
}

/// The largest `line_count` among `cells`, and one for a row without cells.
pub open spec fn max_lines(cells: Seq<Seq<char>>, width: nat) -> nat
    decreases cells.len(),
{
    if cells.len() == 0 {
        1
    } else {
        let rest = max_lines(cells.drop_last(), width);
        let here = line_count(cells.last(), width);
        if here > rest {
            here
        } else {
            rest
        }
    }
}

/// The height of a row: twice its tallest cell, or one line where the
/// columns have no width at all.
pub open spec fn row_height(cells: Seq<Seq<char>>, width: nat) -> nat {
    if width == 0 {
        1
    } else {
        2 * max_lines(cells, width)
    }
}

/// Every cell of a row, wrapped.
pub open spec fn wrapped_row(cells: Seq<Seq<char>>, width: nat) -> Seq<Seq<Seq<char>>> {
    Seq::new(cells.len(), |i: int| wrapped(cells[i], width))
}

/// The lines of a cell with a line break between each two of them.
pub open spec fn joined(lines: Seq<Seq<char>>) -> Seq<char>
    decreases lines.len(),
{
    if lines.len() == 0 {
        Seq::empty()
    } else if lines.len() == 1 {
        lines[0]
    } else {
        joined(lines.drop_last()) + seq!['\n'] + lines.last()
    }
}

/// The text of a cell as it is drawn: its lines, one under the other,
/// with a blank line above and below.
pub open spec fn cell_text_of(lines: Seq<Seq<char>>) -> Seq<char> {
    seq!['\n'] + joined(lines) + seq!['\n']
}

/// The width that each column gets in a viewport: the columns share the
/// viewport equally, and what is left over is not used.
pub open spec fn column_width_of(viewport_width: nat) -> nat {
    viewport_width / (COLUMN_COUNT as nat)
}

/// Where piece `i` of a text of `len` characters starts and ends: it
/// starts inside the text; every piece before the last full one ends inside
/// the text; and the last piece reaches the end of the text.
pub proof fn lemma_chunk_bounds(len: nat, width: nat, i: int)
    requires
        width > 0,
        0 <= i < chunk_count(len, width),
    ensures
        i * width < len,
        (i + 1) * width == i * width + width,
        i < len / width ==> (i + 1) * width <= len,
        i >= len / width ==> i == len / width && (i + 1) * width > len,
        i == chunk_count(len, width) - 1 ==> (i + 1) * width >= len,
{
    let q = len / width;
    let r = len % width;
    assert(len == width * q + r && 0 <= r < width) by {
        vstd::arithmetic::div_mod::lemma_fundamental_div_mod(len as int, width as int);
        vstd::arithmetic::div_mod::lemma_mod_bound(len as int, width as int);
    }
    assert(0 <= q) by {
        vstd::arithmetic::div_mod::lemma_div_pos_is_pos(len as int, width as int);
    }
    assert(i * width < len && (i + 1) * width == i * width + width && (i < q ==> (i + 1) * width
        <= len) && (i >= q ==> (i + 1) * width > len) && (r == 0 && i == q - 1 ==> (i + 1)
        * width == len)) by (nonlinear_arith)
        requires
            len == width * q + r,
            0 <= r < width,
            0 <= i,
            i <= q,
            r == 0 ==> i < q,
            width > 0,
    ;
}

/// The number of pieces never exceeds the number of characters, and a text
/// that is not empty has at least one piece.
pub proof fn lemma_chunk_count_bounds(len: nat, width: nat)
    ensures
        chunk_count(len, width) <= len,
        len > 0 ==> chunk_count(len, width) > 0,
        width > 0 && len % width != 0 ==> len / width < len,
{
    if width > 0 {
        let q = len / width;
        let r = len % width;
        assert(len == width * q + r && 0 <= r < width) by {
            vstd::arithmetic::div_mod::lemma_fundamental_div_mod(len as int, width as int);
            vstd::arithmetic::div_mod::lemma_mod_bound(len as int, width as int);
        }
        assert(0 <= q) by {
            vstd::arithmetic::div_mod::lemma_div_pos_is_pos(len as int, width as int);
        }
        assert(q <= len && (r != 0 ==> q < len) && (len > 0 && r == 0 ==> q > 0))
            by (nonlinear_arith)
            requires
                len == width * q + r,
                0 <= r < width,
                0 <= q,
        ;
    }
}

/// The width that one column gets across a viewport.
pub fn column_width(viewport_width: u16) -> (w: u16)
    ensures
        w == column_width_of(viewport_width as nat),
{
    viewport_width / COLUMN_COUNT
}

/// Cuts the text of one cell into lines of `column_width` characters.
pub fn wrap_cell(cell: &str, column_width: usize) -> (lines: Vec<String>)
    ensures
        lines.deep_view() == wrapped(cell@, column_width as nat),
{
    let len: usize = cell.unicode_len();
    let mut lines: Vec<String> = Vec::new();
    if column_width == 0 {
        if len > 0 {
            lines.push(String::from_str(cell));
        }
        assert(lines.deep_view() =~= wrapped(cell@, 0));
        return lines;
    }
    let full: usize = len / column_width;
    proof {
        lemma_chunk_count_bounds(len as nat, column_width as nat);
    }
    let count: usize = if len % column_width == 0 {
        full
    } else {
        full + 1
    };
    let mut k: usize = 0;
    while k < count
        invariant
            len == cell@.len(),
            column_width > 0,
            full == len / column_width,
            count == chunk_count(len as nat, column_width as nat),
            k <= count,
            lines@.len() == k,
            forall|i: int| 0 <= i < k ==> lines@[i]@ == chunk(cell@, column_width as nat, i),
        decreases count - k,
    {
        proof {
            lemma_chunk_bounds(len as nat, column_width as nat, k as int);
        }
        let start: usize = k * column_width;
        let end: usize = if k < full {
            start + column_width
        } else {
            len
        };
        let piece: String = String::from_str(cell.substring_char(start, end));
        lines.push(piece);
        k += 1;
    }
    assert(lines.deep_view() =~= wrapped(cell@, column_width as nat));
    lines
}

/// The number of lines in the tallest of the cells `0..n` is carried from
/// one cell to the next.
proof fn lemma_max_lines_step(cells: Seq<Seq<char>>, width: nat, n: int)
    requires
        0 <= n < cells.len(),
    ensures
        max_lines(cells.take(n + 1), width) == if line_count(cells[n], width) > max_lines(
            cells.take(n),
            width,
        ) {
            line_count(cells[n], width)
        } else {
            max_lines(cells.take(n), width)
        },
{
    assert(cells.take(n + 1).drop_last() =~= cells.take(n));
    assert(cells.take(n + 1).last() == cells[n]);
}

/// Wraps every cell of a row and gives the height of the row.
///
/// The height is counted in a type that holds twice any number of lines,
/// so it is the height of the row whatever the row holds.
pub fn layout(cells: &Vec<String>, column_width: usize) -> (r: (Vec<Vec<String>>, u128))
    ensures
        r.0.deep_view() == wrapped_row(cells.deep_view(), column_width as nat),
        r.1 == row_height(cells.deep_view(), column_width as nat),
{
    let ghost texts = cells.deep_view();
    let ghost width = column_width as nat;
    let mut rows: Vec<Vec<String>> = Vec::new();
    let mut tallest: usize = 1;
    let mut i: usize = 0;
    while i < cells.len()
        invariant
            texts == cells.deep_view(),
            width == column_width as nat,
            i <= cells.len(),
            rows@.len() == i,
            forall|k: int| 0 <= k < i ==> rows@[k].deep_view() == wrapped(texts[k], width),
            tallest == max_lines(texts.take(i as int), width),
        decreases cells.len() - i,
    {
        let lines: Vec<String> = wrap_cell(cells[i].as_str(), column_width);
        proof {
            lemma_max_lines_step(texts, width, i as int);
            assert(lines@.len() == lines.deep_view().len());
        }
        let here: usize = if lines.len() == 0 {
            1
        } else {
            lines.len()
        };
        if here > tallest {
            tallest = here;
        }
        rows.push(lines);
        i += 1;
    }
    assert(texts.take(i as int) =~= texts);
    assert(rows.deep_view() =~= wrapped_row(texts, width));
    let height: u128 = if column_width == 0 {
        1
    } else {
        2 * (tallest as u128)
    };
    (rows, height)
}

/// The text of a cell as it is drawn: its lines, one under the other,
/// with a blank line above and below.
pub fn cell_text(lines: &Vec<String>) -> (text: String)
    ensures
        text@ == cell_text_of(lines.deep_view()),
{
    let ghost all = lines.deep_view();
    proof {
        reveal_strlit("\n");
    }
    let mut text: String = String::from_str("\n");
    let mut i: usize = 0;
    assert(text@ =~= seq!['\n'] + joined(all.take(0)));
    while i < lines.len()
        invariant
            all == lines.deep_view(),
            i <= lines@.len(),
            text@ == seq!['\n'] + joined(all.take(i as int)),
        decreases lines.len() - i,
    {
        proof {
            reveal_strlit("\n");
            assert(all.take(i + 1).drop_last() =~= all.take(i as int));
            assert(all.take(i + 1).last() == lines@[i as int]@);
        }
        if i > 0 {
            text.append("\n");
        }
        text.append(lines[i].as_str());
        i += 1;
        assert(text@ =~= seq!['\n'] + joined(all.take(i as int)));
    }
    assert(all.take(i as int) =~= all);
    text.append("\n");
    text
}

/// Wrapping loses and adds nothing: the lines of a cell, put together
/// again, are its text; and every line but the last is exactly as wide as
/// the column. The last line is never empty and never wider than the column.
pub proof fn lemma_wrapped_reassembles(s: Seq<char>, width: nat)
    ensures
        wrapped(s, width).flatten() == s,
        forall|i: int|
            0 <= i < wrapped(s, width).len() - 1 ==> (#[trigger] wrapped(s, width)[i]).len()
                == width,
        width > 0 && s.len() > 0 ==> 0 < wrapped(s, width).last().len() <= width,
{
    let lines = wrapped(s, width);
    let count = chunk_count(s.len(), width);
    lemma_chunk_count_bounds(s.len(), width);
    if width == 0 {
        if s.len() == 0 {
            assert(lines.flatten() =~= s);
        } else {
            assert(lines.len() == 1);
            lines.lemma_flatten_singleton();
        }
    } else {
        lemma_prefix_reassembles(s, width, count as int);
        assert(lines.take(count as int) =~= lines);
        if count > 0 {
            lemma_chunk_bounds(s.len(), width, count - 1);
        }
        assert(s.take(s.len() as int) =~= s);
        assert forall|i: int| 0 <= i < lines.len() - 1 implies (#[trigger] lines[i]).len()
            == width by {
            lemma_chunk_bounds(s.len(), width, i);
            lemma_chunk_bounds(s.len(), width, i + 1);
        }
    }
}

/// The first `k` lines of a wrapped cell, put together, are the text up to
/// where line `k` starts.
proof fn lemma_prefix_reassembles(s: Seq<char>, width: nat, k: int)
    requires
        width > 0,
        0 <= k <= chunk_count(s.len(), width),
    ensures
        k < chunk_count(s.len(), width) ==> wrapped(s, width).take(k).flatten() == s.take(
            k * width,
        ),
        k == chunk_count(s.len(), width) ==> wrapped(s, width).take(k).flatten() == s,
    decreases k,
{
    let lines = wrapped(s, width);
    if k == 0 {
        assert(lines.take(0).flatten() =~= Seq::<char>::empty());
        assert(s.take(0) =~= Seq::<char>::empty());
        assert(0 * width == 0) by (nonlinear_arith);
        lemma_chunk_count_bounds(s.len(), width);
    } else {
        lemma_prefix_reassembles(s, width, k - 1);
        lemma_chunk_bounds(s.len(), width, k - 1);
        let before = lines.take(k - 1);
        assert(lines.take(k) =~= before.push(lines[k - 1]));
        before.lemma_flatten_push(lines[k - 1]);
        assert(before.flatten() == s.take((k - 1) * width));
        if k < chunk_count(s.len(), width) {
            lemma_chunk_bounds(s.len(), width, k);
            assert(s.take((k - 1) * width) + s.subrange((k - 1) * width, k * width) =~= s.take(
                k * width,
            ));
        } else {
            assert(s.take((k - 1) * width) + chunk(s, width, k - 1) =~= s);
        }
    }
}

/// No cell of a row has more lines than `max_lines` says, and a row that
/// has cells has one with exactly that many.
pub proof fn lemma_max_lines_is_max(cells: Seq<Seq<char>>, width: nat)
    ensures
        max_lines(cells, width) >= 1,
        forall|i: int|
            0 <= i < cells.len() ==> #[trigger] line_count(cells[i], width) <= max_lines(
                cells,
                width,
            ),
        cells.len() > 0 ==> exists|i: int|
            0 <= i < cells.len() && #[trigger] line_count(cells[i], width) == max_lines(
                cells,
                width,
            ),
    decreases cells.len(),
{
    if cells.len() > 0 {
        let rest = cells.drop_last();
        lemma_max_lines_is_max(rest, width);
        assert forall|i: int| 0 <= i < cells.len() implies #[trigger] line_count(
            cells[i],
            width,
        ) <= max_lines(cells, width) by {
            if i < rest.len() {
                assert(rest[i] == cells[i]);
            }
        }
        if line_count(cells.last(), width) > max_lines(rest, width) || rest.len() == 0 {
            assert(line_count(cells[cells.len() - 1], width) == max_lines(cells, width));
        } else {
            let j = choose|j: int|
                0 <= j < rest.len() && #[trigger] line_count(rest[j], width) == max_lines(
                    rest,
                    width,
                );
            assert(rest[j] == cells[j]);
            assert(line_count(cells[j], width) == max_lines(cells, width));
        }
    }
}

/// In columns that have a width, a row is twice as tall as its tallest
/// cell, so it is never lower than two lines and always of even height;
/// it is exactly two lines tall where every cell is empty or fits in one
/// line.
pub proof fn lemma_row_height(cells: Seq<Seq<char>>, width: nat)
    requires
        width > 0,
    ensures
        row_height(cells, width) == 2 * max_lines(cells, width),
        row_height(cells, width) >= 2,
        row_height(cells, width) % 2 == 0,
        (forall|i: int| 0 <= i < cells.len() ==> (#[trigger] cells[i]).len() <= width)
            ==> row_height(cells, width) == 2,
{
    lemma_max_lines_is_max(cells, width);
    if forall|i: int| 0 <= i < cells.len() ==> (#[trigger] cells[i]).len() <= width {
        if cells.len() > 0 {
            let j = choose|j: int|
                0 <= j < cells.len() && #[trigger] line_count(cells[j], width) == max_lines(
                    cells,
                    width,
                );
            lemma_fits_in_one_line(cells[j].len(), width);
        }
    }
}

/// A text no wider than the column is not cut.
pub proof fn lemma_fits_in_one_line(len: nat, width: nat)
    requires
        0 < width,
        len <= width,
    ensures
        chunk_count(len, width) <= 1,
        len > 0 ==> chunk_count(len, width) == 1,
{
    lemma_chunk_count_bounds(len, width);
    if len == width {
        assert(len % width == 0 && len / width == 1) by (nonlinear_arith)
            requires
                len == width,
                width > 0,
        ;
    } else {
        assert(len / width == 0) by (nonlinear_arith)
            requires
                0 <= len < width,
        ;
    }
}

} // verus!
