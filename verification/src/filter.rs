//! The filter entry line.
//!
//! Text is typed at the end of a buffer; Enter commits the buffer as one
//! more filter and clears it. Where the buffer is longer than the line is
//! wide, the line shows its tail, and typing does not take the cursor past
//! the line's edge. Drawing the line gives it its width and leaves the
//! cursor where it is.

use crate::geometry::{cap, spans, split, within, Area, Constraint, Direction, Position};
use crate::keys::{KeyCode, KeyEvent};
use vstd::prelude::*;
use vstd::string::*;

verus! {

/// What a filter box holds.
pub struct FilterState {
    /// The text typed and not yet committed.
    pub buffer: Seq<char>,
    /// The cursor, counted in characters from the start of the line.
    pub cursor: nat,
    /// The width of the line that shows the buffer.
    pub visible_width: nat,
    /// The committed filters, oldest first.
    pub committed: Seq<Seq<char>>,
}

impl FilterState {
    /// The cursor is inside the buffer.
    pub open spec fn wf(self) -> bool {
        self.cursor <= self.buffer.len()
    }

    /// An empty box on a line without width.
    pub open spec fn empty() -> FilterState {
        FilterState { buffer: Seq::empty(), cursor: 0, visible_width: 0, committed: Seq::empty() }
    }

    /// `c` is added at the end of the buffer, and the cursor goes one to
    /// the right unless the edge of the line stops it.
    pub open spec fn insert_char(self, c: char) -> FilterState {
        FilterState {
            buffer: self.buffer.push(c),
            cursor: if self.cursor + 1 > self.visible_width {
                self.visible_width
            } else {
                self.cursor + 1
            },
            ..self
        }
    }

    /// The last character leaves the buffer and the cursor goes one to the
    /// left, unless it is at the start. An empty buffer stays as it is.
    pub open spec fn backspace(self) -> FilterState {
        if self.buffer.len() == 0 {
            self
        } else {
            FilterState {
                buffer: self.buffer.drop_last(),
                cursor: if self.cursor > 0 {
                    (self.cursor - 1) as nat
                } else {
                    0
                },
                ..self
            }
        }
    }

    /// The cursor goes one to the left, unless it is at the start.
    pub open spec fn move_left(self) -> FilterState {
        FilterState {
            cursor: if self.cursor > 0 {
                (self.cursor - 1) as nat
            } else {
                0
            },
            ..self
        }
    }

    /// The cursor goes one to the right, unless it would leave the buffer;
    /// the edge of the line stops it.
    pub open spec fn move_right(self) -> FilterState {
        if self.cursor + 1 > self.buffer.len() {
            self
        } else {
            FilterState {
                cursor: if self.cursor + 1 > self.visible_width {
                    self.visible_width
                } else {
                    self.cursor + 1
                },
                ..self
            }
        }
    }

    /// A buffer that is not empty becomes the newest filter and is
    /// cleared, with the cursor at the start. An empty buffer commits
    /// nothing.
    pub open spec fn commit(self) -> FilterState {
        if self.buffer.len() == 0 {
            self
        } else {
            FilterState {
                buffer: Seq::empty(),
                cursor: 0,
                committed: self.committed.push(self.buffer),
                ..self
            }
        }
    }

    /// The line gets a new width. Buffer, cursor and filters stay as they
    /// are.
    pub open spec fn resize(self, width: nat) -> FilterState {
        FilterState { visible_width: width, ..self }
    }

    /// What a key does to the box: a character is typed, Backspace
    /// deletes, the arrows move the cursor, Enter commits. No other key
    /// does anything.
    pub open spec fn on_key(self, code: KeyCode) -> FilterState {
        match code {
            KeyCode::Char(c) => self.insert_char(c),
            KeyCode::Backspace => self.backspace(),
            KeyCode::Right => self.move_right(),
            KeyCode::Left => self.move_left(),
            KeyCode::Enter => self.commit(),
            _ => self,
        }
    }

    /// The state after a run of keys, the first key first.
    pub open spec fn on_keys(self, codes: Seq<KeyCode>) -> FilterState
        decreases codes.len(),
    {
        if codes.len() == 0 {
            self
        } else {
            self.on_keys(codes.drop_last()).on_key(codes.last())
        }
    }

    /// The part of the buffer that the line shows: all of it where it
    /// fits, else its last `visible_width` characters.
    pub open spec fn visible(self) -> Seq<char> {
        if self.buffer.len() > self.visible_width {
            self.buffer.subrange(self.buffer.len() - self.visible_width, self.buffer.len() as int)
        } else {
            self.buffer
        }
    }
}

/// The entry line as it is drawn.
pub struct LineView {
    /// The label in front of the line.
    pub label: Seq<char>,
    /// Where the label is drawn.
    pub label_area: Area,
    /// The text on the line.
    pub text: Seq<char>,
    /// Where the text is drawn.
    pub text_area: Area,
    /// Where the cursor is shown, if it is.
    pub cursor: Option<Position>,
}

/// The entry line, ready to be drawn.
#[derive(Debug)]
pub struct FilterLine {
    /// The label in front of the line.
    pub label: String,
    /// Where the label is drawn.
    pub label_area: Area,
    /// The text on the line.
    pub text: String,
    /// Where the text is drawn.
    pub text_area: Area,
    /// Where the cursor is shown, if it is.
    pub cursor: Option<Position>,
}

impl View for FilterLine {
    type V = LineView;

    open spec fn view(&self) -> LineView {
        LineView {
            label: self.label@,
            label_area: self.label_area,
            text: self.text@,
            text_area: self.text_area,
            cursor: self.cursor,
        }
    }
}

impl FilterState {
    /// The entry line as it is drawn. While nothing is typed and no
    /// filter is being entered, it shows a hint and no cursor. Else it
    /// shows the visible part of the buffer, and the cursor as many
    /// columns into the text area as the cursor position says.
    pub open spec fn line(self, label_area: Area, text_area: Area, currently_filtering: bool)
        -> LineView {
        if self.buffer.len() == 0 && !currently_filtering {
            LineView {
                label: "Filters: "@,
                label_area,
                text: "Press f to add filters"@,
                text_area,
                cursor: None,
            }
        } else {
            LineView {
                label: "Filters: "@,
                label_area,
                text: self.visible(),
                text_area,
                cursor: Some(Position { x: cap(text_area.x + self.cursor), y: text_area.y }),
            }
        }
    }
}

/// The lines that the label and a buffer of `len` characters need at
/// `max_line_width`. A width of zero counts as one.
pub open spec fn lines_needed(len: nat, max_line_width: nat) -> nat {
    let width = if max_line_width == 0 {
        1
    } else {
        max_line_width
    };
    ((9 + len) / width + 1) as nat
}

/// The filter entry line and the filters committed on it.
pub struct FilterBox {
    input: String,
    cursor_position: u16,
    visible_width: u16,
    committed: Vec<String>,
}

impl View for FilterBox {
    type V = FilterState;

    closed spec fn view(&self) -> FilterState {
        FilterState {
            buffer: self.input@,
            cursor: self.cursor_position as nat,
            visible_width: self.visible_width as nat,
            committed: self.committed.deep_view(),
        }
    }
}

/// The label in front of the entry line.
pub fn label() -> (t: &'static str)
    ensures
        t@ == "Filters: "@,
        t@.len() == 9,
{
    proof {
        reveal_strlit("Filters: ");
    }
    "Filters: "
}

impl FilterBox {
    /// An empty box on a line without width.
    pub fn new() -> (b: FilterBox)
        ensures
            b@ == FilterState::empty(),
            b@.wf(),
    {
        let b = FilterBox {
            input: String::new(),
            cursor_position: 0,
            visible_width: 0,
            committed: Vec::new(),
        };
        assert(b.committed.deep_view() =~= Seq::<Seq<char>>::empty());
        b
    }

    /// The text typed and not yet committed.
    pub fn input(&self) -> (t: &str)
        ensures
            t@ == self@.buffer,
    {
        self.input.as_str()
    }

    /// The cursor, in characters from the start of the line.
    pub fn cursor(&self) -> (c: u16)
        ensures
            c == self@.cursor,
    {
        self.cursor_position
    }

    /// The width of the line that shows the buffer.
    pub fn visible_width(&self) -> (w: u16)
        ensures
            w == self@.visible_width,
    {
        self.visible_width
    }

    /// The committed filters, oldest first.
    pub fn filters(&self) -> (f: &Vec<String>)
        ensures
            f.deep_view() == self@.committed,
    {
        &self.committed
    }

    /// Gives the line a new width, and changes nothing else.
    pub fn set_visible_width(&mut self, width: u16)
        ensures
            final(self)@ == (FilterState { visible_width: width as nat, ..old(self)@ }),
            final(self)@.wf() == old(self)@.wf(),
    {
        self.visible_width = width;
    }

    /// Types `c` at the end of the buffer.
    pub fn insert_char(&mut self, c: char)
        requires
            old(self)@.wf(),
        ensures
            final(self)@ == old(self)@.insert_char(c),
            final(self)@.wf(),
    {
        crate::text::push_char(&mut self.input, c);
        self.advance();
    }

    /// Moves the cursor one to the right, up to the edge of the line.
    fn advance(&mut self)
        ensures
            final(self)@ == (FilterState {
                cursor: if old(self)@.cursor + 1 > old(self)@.visible_width {
                    old(self)@.visible_width
                } else {
                    old(self)@.cursor + 1
                },
                ..old(self)@
            }),
    {
        if self.cursor_position >= self.visible_width {
            self.cursor_position = self.visible_width;
        } else {
            self.cursor_position = self.cursor_position + 1;
        }
    }

    /// Moves the cursor one to the left, down to the start of the line.
    fn retreat(&mut self)
        ensures
            final(self)@ == old(self)@.move_left(),
    {
        if self.cursor_position > 0 {
            self.cursor_position = self.cursor_position - 1;
        }
    }

    /// Deletes the last character of the buffer, if there is one.
    pub fn backspace(&mut self)
        requires
            old(self)@.wf(),
        ensures
            final(self)@ == old(self)@.backspace(),
            final(self)@.wf(),
    {
        let removed: Option<char> = crate::text::pop_char(&mut self.input);
        if removed.is_some() {
            self.retreat();
        }
    }

    /// Moves the cursor one to the left.
    pub fn move_cursor_to_left(&mut self)
        requires
            old(self)@.wf(),
        ensures
            final(self)@ == old(self)@.move_left(),
            final(self)@.wf(),
    {
        self.retreat();
    }

    /// Moves the cursor one to the right, unless it would leave the buffer.
    pub fn move_cursor_to_right(&mut self)
        requires
            old(self)@.wf(),
        ensures
            final(self)@ == old(self)@.move_right(),
            final(self)@.wf(),
    {
        let len: usize = self.input.as_str().unicode_len();
        if (self.cursor_position as usize) < len {
            self.advance();
        }
    }

    /// Commits the buffer as one more filter. Returns whether a filter
    /// was added.
    pub fn commit(&mut self) -> (added: bool)
        requires
            old(self)@.wf(),
        ensures
            final(self)@ == old(self)@.commit(),
            final(self)@.wf(),
            added == (old(self)@.buffer.len() > 0),
    {
        let len: usize = self.input.as_str().unicode_len();
        if len == 0 {
            return false;
        }
        let text: String = self.input.clone();
        self.committed.push(text);
        self.input = String::new();
        self.cursor_position = 0;
        assert(self.committed.deep_view() =~= old(self).committed.deep_view().push(
            old(self).input@,
        ));
        true
    }

    /// Hands a key to the box.
    pub fn on_key_event(&mut self, key: KeyEvent)
        requires
            old(self)@.wf(),
        ensures
            final(self)@ == old(self)@.on_key(key.code),
            final(self)@.wf(),
    {
        match key.code {
            KeyCode::Char(c) => self.insert_char(c),
            KeyCode::Backspace => self.backspace(),
            KeyCode::Right => self.move_cursor_to_right(),
            KeyCode::Left => self.move_cursor_to_left(),
            KeyCode::Enter => {
                self.commit();
            },
            _ => {},
        }
    }

    /// The part of the buffer that the line shows.
    pub fn visible_input(&self) -> (t: &str)
        ensures
            t@ == self@.visible(),
    {
        let text: &str = self.input.as_str();
        let len: usize = text.unicode_len();
        let width: usize = self.visible_width as usize;
        if len > width {
            text.substring_char(len - width, len)
        } else {
            text
        }
    }

    /// The entry line as it is drawn with its label on `label_area` and
    /// its text on `text_area`.
    pub fn line(&self, label_area: Area, text_area: Area, currently_filtering: bool) -> (line:
        FilterLine)
        ensures
            line@ == self@.line(label_area, text_area, currently_filtering),
    {
        let typed: usize = self.input.as_str().unicode_len();
        if typed == 0 && !currently_filtering {
            FilterLine {
                label: String::from_str(label()),
                label_area,
                text: String::from_str("Press f to add filters"),
                text_area,
                cursor: None,
            }
        } else {
            let column: u16 = if self.cursor_position > u16::MAX - text_area.x {
                u16::MAX
            } else {
                text_area.x + self.cursor_position
            };
            FilterLine {
                label: String::from_str(label()),
                label_area,
                text: String::from_str(self.visible_input()),
                text_area,
                cursor: Some(Position { x: column, y: text_area.y }),
            }
        }
    }

    /// Lays the entry line out on the first line of `area`, the label in
    /// front and the text on what is left of the line, and takes the
    /// width of the text area as the width of the line. Buffer, cursor and
    /// filters stay as they are.
    ///
    /// Where the two areas lie on that line is the layout solver's
    /// choice; the areas are returned with the line. Both lie on one row
    /// inside `area`, and neither reaches beyond its sides.
    pub fn draw(&mut self, area: Area, currently_filtering: bool) -> (line: FilterLine)
        requires
            old(self)@.wf(),
        ensures
            final(self)@ == (FilterState {
                visible_width: line.text_area.width as nat,
                ..old(self)@
            }),
            final(self)@.wf(),
            line@ == final(self)@.line(line.label_area, line.text_area, currently_filtering),
            exists|row: Area| #[trigger]
                spans(row, area, Direction::Vertical) && within(row, area, Direction::Vertical)
                    && spans(line.label_area, row, Direction::Horizontal) && within(
                    line.label_area,
                    row,
                    Direction::Horizontal,
                ) && spans(line.text_area, row, Direction::Horizontal) && within(
                    line.text_area,
                    row,
                    Direction::Horizontal,
                ),
            line.label_area.width <= area.width,
            line.text_area.width <= area.width,
    {
        let rows: Vec<Area> = split(
            Direction::Vertical,
            &vec![Constraint::Length(1), Constraint::Fill(1)],
            area,
        );
        let columns: Vec<Area> = split(
            Direction::Horizontal,
            &vec![Constraint::Length(9), Constraint::Fill(1)],
            rows[0],
        );
        let label_area: Area = columns[0];
        let text_area: Area = columns[1];
        assert(spans(rows[0], area, Direction::Vertical) && within(
            rows[0],
            area,
            Direction::Vertical,
        ));
        self.set_visible_width(text_area.width);
        self.line(label_area, text_area, currently_filtering)
    }

    /// The lines that the label and the buffer need at `max_line_width`.
    /// A count that does not fit in `usize` is given as `usize::MAX`.
    pub fn count_lines(&self, max_line_width: usize) -> (n: usize)
        ensures
            n == if lines_needed(self@.buffer.len(), max_line_width as nat) <= usize::MAX {
                lines_needed(self@.buffer.len(), max_line_width as nat)
            } else {
                usize::MAX as nat
            },
    {
        let len: usize = self.input.as_str().unicode_len();
        let width: u128 = if max_line_width == 0 {
            1
        } else {
            max_line_width as u128
        };
        let total: u128 = 9 + len as u128;
        let lines: u128 = total / width + 1;
        if lines > usize::MAX as u128 {
            usize::MAX
        } else {
            lines as usize
        }
    }
}

/// The cursor never leaves the buffer: every key keeps a valid box valid,
/// and so does every new width.
pub proof fn lemma_key_keeps_cursor_in_buffer(s: FilterState, code: KeyCode, width: nat)
    requires
        s.wf(),
    ensures
        s.on_key(code).wf(),
        s.on_key(code).cursor <= s.on_key(code).buffer.len(),
        s.resize(width).wf(),
{
}

/// After every key of a run of keys, the cursor is inside the buffer.
pub proof fn lemma_cursor_stays_in_buffer(s: FilterState, codes: Seq<KeyCode>, n: int)
    requires
        s.wf(),
        0 <= n <= codes.len(),
    ensures
        s.on_keys(codes.take(n)).wf(),
        0 <= s.on_keys(codes.take(n)).cursor <= s.on_keys(codes.take(n)).buffer.len(),
    decreases n,
{
    if n > 0 {
        lemma_cursor_stays_in_buffer(s, codes, n - 1);
        assert(codes.take(n).drop_last() =~= codes.take(n - 1));
        lemma_key_keeps_cursor_in_buffer(s.on_keys(codes.take(n - 1)), codes[n - 1], 0);
    }
}

/// The line shows the end of the buffer, as much of it as fits.
pub proof fn lemma_visible_is_tail(s: FilterState)
    ensures
        s.visible().len() == if s.buffer.len() > s.visible_width {
            s.visible_width
        } else {
            s.buffer.len()
        },
        s.visible() == s.buffer.skip(s.buffer.len() - s.visible().len()),
{
    assert(s.buffer.skip(0) =~= s.buffer);
}

/// Committing the same text twice gives two filters, both that text.
pub proof fn lemma_commit_twice(s: FilterState, text: Seq<char>)
    requires
        text.len() > 0,
    ensures
        ({
            let typed = FilterState { buffer: text, ..s };
            let once = typed.commit();
            let twice = (FilterState { buffer: text, ..once }).commit();
            twice.committed == s.committed.push(text).push(text)
        }),
{
}

} // verus!
