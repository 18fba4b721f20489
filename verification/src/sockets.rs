//! The table of sockets: the records, the filters applied to them, and
//! the scroll offset.
//!
//! The rows of the table are the records that pass every filter, in the
//! order of the records. The scroll offset is the index of the first row
//! shown; it never points past the last row.

use crate::geometry::Area;
use crate::keys::{KeyEvent, Scroll};
use crate::layout::{
    column_width, column_width_of, layout, lemma_row_height, max_lines, row_height, wrapped_row,
};
use crate::socket::Socket;
use vstd::prelude::*;
use vstd::string::*;

verus! {

/// What a table of sockets holds.
pub struct GridState {
    /// The records, as they were last read.
    pub sockets: Seq<Socket>,
    /// The filters applied to the records.
    pub filters: Seq<Seq<char>>,
    /// The index of the first row shown.
    pub scroll_offset: nat,
}

/// One row of the table as it is drawn.
pub struct RowView {
    /// The lines of each of the five cells.
    pub cells: Seq<Seq<Seq<char>>>,
    /// The lines of the screen that the row takes.
    pub height: nat,
}

/// The table as it is drawn.
pub struct TableState {
    /// Where the table is drawn.
    pub area: Area,
    /// The width of each column.
    pub column_width: nat,
    /// The titles of the columns.
    pub header: Seq<Seq<char>>,
    /// The rows that are shown, the first one at the scroll offset.
    pub rows: Seq<RowView>,
}

/// One row of the table, ready to be drawn.
#[derive(Debug)]
pub struct TableRow {
    /// The lines of each of the five cells.
    pub cells: Vec<Vec<String>>,
    /// The lines of the screen that the row takes.
    pub height: u128,
}

/// The table, ready to be drawn.
#[derive(Debug)]
pub struct TableView {
    /// Where the table is drawn.
    pub area: Area,
    /// The width of each column.
    pub column_width: u16,
    /// The titles of the columns.
    pub header: Vec<String>,
    /// The rows that are shown, the first one at the scroll offset.
    pub rows: Vec<TableRow>,
}

impl View for TableRow {
    type V = RowView;

    open spec fn view(&self) -> RowView {
        RowView { cells: self.cells.deep_view(), height: self.height as nat }
    }
}

/// The rows of a table that is ready to be drawn, as they are drawn.
pub open spec fn row_views(rows: Seq<TableRow>) -> Seq<RowView> {
    Seq::new(rows.len(), |i: int| rows[i]@)
}

impl View for TableView {
    type V = TableState;

    open spec fn view(&self) -> TableState {
        TableState {
            area: self.area,
            column_width: self.column_width as nat,
            header: self.header.deep_view(),
            rows: row_views(self.rows@),
        }
    }
}

/// The titles of the five columns.
pub open spec fn header_titles() -> Seq<Seq<char>> {
    seq!["PID"@, "Protocol"@, "Local Address"@, "Foreign Address"@, "State"@]
}

/// A record as a row of the table in columns of `width`.
pub open spec fn row_of(socket: Socket, width: nat) -> RowView {
    RowView {
        cells: wrapped_row(socket.display_fields(), width),
        height: row_height(socket.display_fields(), width),
    }
}

/// The rows that are shown of `rows` in `budget` lines of the screen: one
/// row after the other for as long as a row starts inside the budget. The
/// last of them may reach beyond it.
pub open spec fn window(rows: Seq<Socket>, width: nat, budget: nat) -> Seq<RowView>
    decreases rows.len(),
{
    if rows.len() == 0 || budget == 0 {
        Seq::empty()
    } else {
        let first = row_of(rows.first(), width);
        let left = if first.height >= budget {
            0
        } else {
            (budget - first.height) as nat
        };
        seq![first] + window(rows.drop_first(), width, left)
    }
}

/// The test that a record passes every one of `filters`.
pub open spec fn keeps(filters: Seq<Seq<char>>) -> spec_fn(Socket) -> bool {
    |s: Socket| s.passes(filters)
}

/// The largest scroll offset in a table of `rows` rows: the index of its
/// last row, and zero in an empty table.
pub open spec fn last_offset(rows: nat) -> nat {
    if rows == 0 {
        0
    } else {
        (rows - 1) as nat
    }
}

impl GridState {
    /// The rows of the table: the records that pass every filter.
    pub open spec fn rows(self) -> Seq<Socket> {
        self.sockets.filter(keeps(self.filters))
    }

    /// The scroll offset does not point past the last row.
    pub open spec fn wf(self) -> bool {
        self.scroll_offset <= last_offset(self.rows().len())
    }

    /// The same table with a scroll offset past the last row brought back
    /// to the last row.
    pub open spec fn clamped(self) -> GridState {
        GridState {
            scroll_offset: if self.scroll_offset > last_offset(self.rows().len()) {
                last_offset(self.rows().len())
            } else {
                self.scroll_offset
            },
            ..self
        }
    }

    /// One row down, but not past the last row.
    pub open spec fn move_down(self) -> GridState {
        (GridState { scroll_offset: self.scroll_offset + 1, ..self }).clamped()
    }

    /// One row up, but not above the first row.
    pub open spec fn move_up(self) -> GridState {
        GridState {
            scroll_offset: if self.scroll_offset > 0 {
                (self.scroll_offset - 1) as nat
            } else {
                0
            },
            ..self
        }
    }

    /// Other filters are applied, and the scroll offset comes back into
    /// the rows that are left.
    pub open spec fn with_filters(self, filters: Seq<Seq<char>>) -> GridState {
        (GridState { filters, ..self }).clamped()
    }

    /// Other records are shown, and the scroll offset comes back into the
    /// rows that they give.
    pub open spec fn with_sockets(self, sockets: Seq<Socket>) -> GridState {
        (GridState { sockets, ..self }).clamped()
    }

    /// The table as it is drawn on `area`: the titles of the columns on
    /// the first line, and under them the rows from the scroll offset on,
    /// as many as start inside the area.
    pub open spec fn table(self, area: Area) -> TableState {
        TableState {
            area,
            column_width: column_width_of(area.width as nat),
            header: header_titles(),
            rows: window(
                self.rows().skip(self.scroll_offset as int),
                column_width_of(area.width as nat),
                if area.height > 0 {
                    (area.height - 1) as nat
                } else {
                    0
                },
            ),
        }
    }

    /// What a key does to the table: it scrolls, or does nothing.
    pub open spec fn on_key(self, key: KeyEvent) -> GridState {
        match key.scroll() {
            Some(Scroll::Down) => self.move_down(),
            Some(Scroll::Up) => self.move_up(),
            None => self,
        }
    }
}

/// The table of sockets.
pub struct SocketGrid {
    sockets: Vec<Socket>,
    filters: Vec<String>,
    scroll_offset: usize,
}

impl View for SocketGrid {
    type V = GridState;

    closed spec fn view(&self) -> GridState {
        GridState {
            sockets: self.sockets@,
            filters: self.filters.deep_view(),
            scroll_offset: self.scroll_offset as nat,
        }
    }
}

/// The rows among the first `n + 1` records are those among the first `n`,
/// and record `n` where it passes.
proof fn lemma_rows_step(sockets: Seq<Socket>, filters: Seq<Seq<char>>, n: int)
    requires
        0 <= n < sockets.len(),
    ensures
        sockets.take(n + 1).filter(keeps(filters)) == if sockets[n].passes(filters) {
            sockets.take(n).filter(keeps(filters)).push(sockets[n])
        } else {
            sockets.take(n).filter(keeps(filters))
        },
{
    reveal(Seq::filter);
    assert(sockets.take(n + 1).drop_last() =~= sockets.take(n));
    assert(sockets.take(n + 1).last() == sockets[n]);
}

/// There are no rows among no records.
proof fn lemma_rows_start(sockets: Seq<Socket>, filters: Seq<Seq<char>>)
    ensures
        sockets.take(0).filter(keeps(filters)) == Seq::<Socket>::empty(),
{
    reveal(Seq::filter);
    assert(sockets.take(0).filter(keeps(filters)) =~= Seq::<Socket>::empty());
}

/// The titles of the five columns.
pub fn headers() -> (titles: Vec<String>)
    ensures
        titles.deep_view() == header_titles(),
{
    let mut titles: Vec<String> = Vec::new();
    titles.push(String::from_str("PID"));
    titles.push(String::from_str("Protocol"));
    titles.push(String::from_str("Local Address"));
    titles.push(String::from_str("Foreign Address"));
    titles.push(String::from_str("State"));
    assert(titles.deep_view() =~= header_titles());
    titles
}

/// The rows that are shown are the rows of the first records, one for
/// one and in their order.
pub proof fn lemma_window_rows(rows: Seq<Socket>, width: nat, budget: nat)
    ensures
        window(rows, width, budget).len() <= rows.len(),
        forall|i: int|
            0 <= i < window(rows, width, budget).len() ==> #[trigger] window(
                rows,
                width,
                budget,
            )[i] == row_of(rows[i], width),
    decreases rows.len(),
{
    if rows.len() > 0 && budget > 0 {
        let first = row_of(rows.first(), width);
        let left = if first.height >= budget {
            0
        } else {
            (budget - first.height) as nat
        };
        let rest = window(rows.drop_first(), width, left);
        lemma_window_rows(rows.drop_first(), width, left);
        assert forall|i: int| 0 <= i < window(rows, width, budget).len() implies #[trigger] window(
            rows,
            width,
            budget,
        )[i] == row_of(rows[i], width) by {
            if i > 0 {
                assert(window(rows, width, budget)[i] == rest[i - 1]);
                assert(rows.drop_first()[i - 1] == rows[i]);
            }
        }
    }
}

/// In columns that have a width, every row of the table as it is drawn
/// holds the wrapped fields of its record and is twice as high as the
/// tallest of its five cells: at least two lines, and an even number of
/// lines. Row `i` of what is drawn is the row at the scroll offset plus `i`.
pub proof fn lemma_drawn_row(s: GridState, area: Area, i: int)
    requires
        s.wf(),
        column_width_of(area.width as nat) >= 1,
        0 <= i < s.table(area).rows.len(),
    ensures
        s.scroll_offset + i < s.rows().len(),
        ({
            let width = column_width_of(area.width as nat);
            let fields = s.rows()[s.scroll_offset + i].display_fields();
            let row = s.table(area).rows[i];
            &&& fields.len() == 5
            &&& row.cells == wrapped_row(fields, width)
            &&& row.height == 2 * max_lines(fields, width)
            &&& row.height >= 2
            &&& row.height % 2 == 0
        }),
{
    let width = column_width_of(area.width as nat);
    let budget: nat = if area.height > 0 {
        (area.height - 1) as nat
    } else {
        0
    };
    let from = s.rows().skip(s.scroll_offset as int);
    lemma_window_rows(from, width, budget);
    assert(from[i] == s.rows()[s.scroll_offset + i]);
    lemma_row_height(from[i].display_fields(), width);
}

/// The scroll offset never points past the last row: other filters and
/// other records bring it back into the rows, and a key keeps it there.
pub proof fn lemma_offset_stays_in_rows(
    s: GridState,
    key: KeyEvent,
    filters: Seq<Seq<char>>,
    sockets: Seq<Socket>,
)
    ensures
        s.clamped().wf(),
        s.with_filters(filters).wf(),
        s.with_sockets(sockets).wf(),
        s.wf() ==> s.on_key(key).wf(),
        s.wf() ==> s.clamped() == s,
{
}

/// One more filter never adds a row: the rows under the longer list of
/// filters are no more than the rows under the shorter one.
pub proof fn lemma_filter_narrows_rows(
    sockets: Seq<Socket>,
    filters: Seq<Seq<char>>,
    token: Seq<char>,
)
    ensures
        sockets.filter(keeps(filters.push(token))).len() <= sockets.filter(keeps(filters)).len(),
    decreases sockets.len(),
{
    reveal(Seq::filter);
    if sockets.len() > 0 {
        lemma_filter_narrows_rows(sockets.drop_last(), filters, token);
        crate::socket::lemma_filters_conjoin(sockets.last(), filters, token);
    }
}

impl SocketGrid {
    /// A table of `sockets`, unfiltered, scrolled to the top.
    pub fn new(sockets: Vec<Socket>) -> (g: SocketGrid)
        ensures
            g@ == (GridState { sockets: sockets@, filters: Seq::empty(), scroll_offset: 0 }),
            g@.wf(),
    {
        let g = SocketGrid { sockets, filters: Vec::new(), scroll_offset: 0 };
        assert(g.filters.deep_view() =~= Seq::<Seq<char>>::empty());
        g
    }

    /// The records, as they were last read.
    pub fn sockets(&self) -> (s: &Vec<Socket>)
        ensures
            s@ == self@.sockets,
    {
        &self.sockets
    }

    /// The number of records, filtered or not.
    pub fn total(&self) -> (n: usize)
        ensures
            n == self@.sockets.len(),
    {
        self.sockets.len()
    }

    /// The index of the first row shown.
    pub fn scroll_offset(&self) -> (n: usize)
        ensures
            n == self@.scroll_offset,
    {
        self.scroll_offset
    }

    /// The number of rows: the records that pass every filter.
    pub fn row_count(&self) -> (n: usize)
        ensures
            n == self@.rows().len(),
    {
        let mut n: usize = 0;
        let mut i: usize = 0;
        proof {
            lemma_rows_start(self.sockets@, self.filters.deep_view());
        }
        while i < self.sockets.len()
            invariant
                i <= self.sockets@.len(),
                n <= i,
                n == self.sockets@.take(i as int).filter(keeps(self.filters.deep_view())).len(),
            decreases self.sockets.len() - i,
        {
            proof {
                lemma_rows_step(self.sockets@, self.filters.deep_view(), i as int);
            }
            if self.sockets[i].passes_filters(&self.filters) {
                n += 1;
            }
            i += 1;
        }
        assert(self.sockets@.take(i as int) =~= self.sockets@);
        n
    }

    /// The indices of the records that are rows, in rising order.
    fn row_indices(&self) -> (indices: Vec<usize>)
        ensures
            indices@.len() == self@.rows().len(),
            forall|k: int|
                0 <= k < indices@.len() ==> (#[trigger] indices@[k]) < self@.sockets.len()
                    && self@.sockets[indices@[k] as int] == self@.rows()[k],
    {
        let ghost pred = keeps(self.filters.deep_view());
        let mut indices: Vec<usize> = Vec::new();
        let mut i: usize = 0;
        proof {
            lemma_rows_start(self.sockets@, self.filters.deep_view());
        }
        while i < self.sockets.len()
            invariant
                pred == keeps(self.filters.deep_view()),
                i <= self.sockets@.len(),
                indices@.len() == self.sockets@.take(i as int).filter(pred).len(),
                forall|k: int|
                    0 <= k < indices@.len() ==> (#[trigger] indices@[k]) < self.sockets@.len()
                        && self.sockets@[indices@[k] as int] == self.sockets@.take(
                        i as int,
                    ).filter(pred)[k],
            decreases self.sockets.len() - i,
        {
            proof {
                lemma_rows_step(self.sockets@, self.filters.deep_view(), i as int);
            }
            if self.sockets[i].passes_filters(&self.filters) {
                indices.push(i);
            }
            i += 1;
        }
        assert(self.sockets@.take(i as int) =~= self.sockets@);
        indices
    }

    /// The table as it is drawn on `area`.
    pub fn draw(&self, area: Area) -> (table: TableView)
        requires
            self@.wf(),
        ensures
            table@ == self@.table(area),
    {
        let width: u16 = column_width(area.width);
        let budget: usize = if area.height > 0 {
            (area.height - 1) as usize
        } else {
            0
        };
        let indices: Vec<usize> = self.row_indices();
        let ghost all = self@.rows();
        let ghost target = window(all.skip(self.scroll_offset as int), width as nat, budget as nat);
        let mut rows: Vec<TableRow> = Vec::new();
        let mut left: usize = budget;
        let mut j: usize = self.scroll_offset;
        while j < indices.len() && left > 0
            invariant
                all == self@.rows(),
                indices@.len() == all.len(),
                forall|k: int|
                    0 <= k < indices@.len() ==> (#[trigger] indices@[k]) < self@.sockets.len()
                        && self@.sockets[indices@[k] as int] == all[k],
                j <= indices@.len(),
                row_views(rows@) + window(all.skip(j as int), width as nat, left as nat)
                    == target,
            decreases indices.len() - j,
        {
            let socket: &Socket = &self.sockets[indices[j]];
            let fields: Vec<String> = socket.fields();
            let (cells, height) = layout(&fields, width as usize);
            let ghost before = row_views(rows@);
            let ghost rest = all.skip(j as int);
            proof {
                assert(rest.first() == all[j as int]);
                assert(rest.drop_first() =~= all.skip(j + 1));
            }
            let row = TableRow { cells, height };
            assert(row@ == row_of(all[j as int], width as nat));
            rows.push(row);
            left = if height >= left as u128 {
                0
            } else {
                left - height as usize
            };
            j += 1;
            proof {
                assert(row_views(rows@) =~= before + seq![row@]);
                assert((before + seq![row@]) + window(all.skip(j as int), width as nat, left as nat)
                    =~= before + (seq![row@] + window(
                    all.skip(j as int),
                    width as nat,
                    left as nat,
                )));
            }
        }
        proof {
            assert(window(all.skip(j as int), width as nat, left as nat) =~= Seq::<
                RowView,
            >::empty());
            assert(row_views(rows@) =~= target);
        }
        TableView { area, column_width: width, header: headers(), rows }
    }

    /// Brings a scroll offset past the last row back to the last row.
    fn clamp(&mut self)
        ensures
            final(self)@ == old(self)@.clamped(),
            final(self)@.wf(),
    {
        let rows: usize = self.row_count();
        let last: usize = if rows == 0 {
            0
        } else {
            rows - 1
        };
        if self.scroll_offset > last {
            self.scroll_offset = last;
        }
    }

    /// Shows other records.
    pub fn read_sockets(&mut self, snapshot: Vec<Socket>)
        ensures
            final(self)@ == old(self)@.with_sockets(snapshot@),
            final(self)@.wf(),
    {
        self.sockets = snapshot;
        self.clamp();
    }

    /// Applies other filters.
    pub fn set_filters(&mut self, filters: &Vec<String>)
        ensures
            final(self)@ == old(self)@.with_filters(filters.deep_view()),
            final(self)@.wf(),
    {
        let mut copy: Vec<String> = Vec::new();
        let mut i: usize = 0;
        while i < filters.len()
            invariant
                i <= filters@.len(),
                copy@.len() == i,
                forall|k: int| 0 <= k < i ==> copy@[k]@ == filters@[k]@,
            decreases filters.len() - i,
        {
            copy.push(filters[i].clone());
            i += 1;
        }
        assert(copy.deep_view() =~= filters.deep_view());
        self.filters = copy;
        self.clamp();
    }

    /// Scrolls one row down.
    pub fn move_down(&mut self)
        requires
            old(self)@.wf(),
        ensures
            final(self)@ == old(self)@.move_down(),
            final(self)@.wf(),
    {
        let rows: usize = self.row_count();
        if rows > 0 && self.scroll_offset < rows - 1 {
            self.scroll_offset = self.scroll_offset + 1;
        }
    }

    /// Scrolls one row up.
    pub fn move_up(&mut self)
        requires
            old(self)@.wf(),
        ensures
            final(self)@ == old(self)@.move_up(),
            final(self)@.wf(),
    {
        if self.scroll_offset > 0 {
            self.scroll_offset = self.scroll_offset - 1;
        }
    }

    /// Hands a key to the table: the arrows up and down, `j` and `k`
    /// scroll it.
    pub fn on_key_event(&mut self, key: KeyEvent)
        requires
            old(self)@.wf(),
        ensures
            final(self)@ == old(self)@.on_key(key),
            final(self)@.wf(),
    {
        match key.scroll_direction() {
            Some(Scroll::Down) => self.move_down(),
            Some(Scroll::Up) => self.move_up(),
            None => {},
        }
    }
}

} // verus!
