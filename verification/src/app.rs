//! The dashboard: the mode controller and the screen.
//!
//! The dashboard is in one of three modes. In `Browse` it scrolls the
//! table, in `Filter` it edits the filter entry, and `Sort` is a mode in
//! which no key does anything yet. Every key press is one step from a
//! state to the next; whoever runs the dashboard draws the screen, reads a
//! key, takes the step, and goes on for as long as the dashboard is
//! running.

use crate::filter::{lines_needed, FilterBox, FilterLine, FilterState, LineView};
use crate::geometry::{inner, inside, spans, split, within, Area, Constraint, Direction};
use crate::keys::{KeyCode, KeyEvent};
use crate::socket::Socket;
use crate::sockets::{GridState, SocketGrid, TableView};
use crate::text::{decimal, decimal_digits};
use vstd::prelude::*;
use vstd::string::*;

verus! {

/// What the keys are for at the moment.
#[derive(Clone, Copy, Debug, PartialEq, Eq, Structural)]
pub enum Mode {
    Browse,
    Filter,
    Sort,
}

/// What a dashboard holds.
pub struct AppState {
    /// Whether the dashboard goes on.
    pub running: bool,
    /// What the keys are for.
    pub mode: Mode,
    /// The table of sockets.
    pub grid: GridState,
    /// The filter entry.
    pub filter: FilterState,
}

impl Mode {
    /// The title of the footer in this mode.
    pub open spec fn title(self) -> Seq<char> {
        match self {
            Mode::Browse => "BROWSING"@,
            Mode::Filter => "FILTERING"@,
            Mode::Sort => "SORTING"@,
        }
    }

    /// The hints that the footer gives in this mode.
    pub open spec fn controls(self) -> Seq<char> {
        match self {
            Mode::Browse => "q quit | ↑ or k move up | ↓ or j move down"@,
            Mode::Filter => "q quit filtering | type any text then press Enter to add filter"@,
            Mode::Sort => "q quit sorting | → move right | ← move left | Enter toggle order"@,
        }
    }

    /// The title of the footer in this mode.
    pub fn footer_title(self) -> (t: &'static str)
        ensures
            t@ == self.title(),
    {
        match self {
            Mode::Browse => "BROWSING",
            Mode::Filter => "FILTERING",
            Mode::Sort => "SORTING",
        }
    }

    /// The hints that the footer gives in this mode.
    pub fn footer_controls(self) -> (t: &'static str)
        ensures
            t@ == self.controls(),
    {
        match self {
            Mode::Browse => "q quit | ↑ or k move up | ↓ or j move down",
            Mode::Filter => "q quit filtering | type any text then press Enter to add filter",
            Mode::Sort => "q quit sorting | → move right | ← move left | Enter toggle order",
        }
    }
}

impl AppState {
    /// The table and the filter entry are valid, and the table applies
    /// the committed filters.
    pub open spec fn wf(self) -> bool {
        &&& self.grid.wf()
        &&& self.filter.wf()
        &&& self.grid.filters == self.filter.committed
    }

    /// What a key does in the mode that the dashboard is in, scrolling
    /// aside: in `Browse`, `f` and `s` change the mode; in `Filter`, the
    /// key goes to the filter entry, and the table applies what is
    /// committed there; in `Sort`, nothing.
    pub open spec fn routed(self, key: KeyEvent) -> AppState {
        match self.mode {
            Mode::Browse => if key.code == KeyCode::Char('f') {
                AppState { mode: Mode::Filter, ..self }
            } else if key.code == KeyCode::Char('s') {
                AppState { mode: Mode::Sort, ..self }
            } else {
                self
            },
            Mode::Filter => {
                let filter = self.filter.on_key(key.code);
                AppState { filter, grid: self.grid.with_filters(filter.committed), ..self }
            },
            Mode::Sort => self,
        }
    }

    /// The step that a key press takes.
    ///
    /// A key that stops the dashboard does so in every mode, and nothing
    /// else. `q` stops the dashboard in `Browse` and leads back to
    /// `Browse` from the other modes. Every other key is routed by the
    /// mode, and then scrolls the table if it is a scrolling key, whatever
    /// the mode.
    pub open spec fn on_key(self, key: KeyEvent) -> AppState {
        if key.stops() {
            AppState { running: false, ..self }
        } else if key.leaves() {
            if self.mode == Mode::Browse {
                AppState { running: false, ..self }
            } else {
                AppState { mode: Mode::Browse, ..self }
            }
        } else {
            let routed = self.routed(key);
            AppState { grid: routed.grid.on_key(key), ..routed }
        }
    }
}

/// The height of the header block in an area of `area_height` lines,
/// where the filter entry needs `lines` lines: the area less its two
/// border lines, but one line at least, and no more than the entry needs.
pub open spec fn block_height(area_height: u16, lines: nat) -> u16 {
    let usable: u16 = if area_height > 3 {
        (area_height - 2) as u16
    } else {
        1
    };
    if lines < usable {
        lines as u16
    } else {
        usable
    }
}

/// The width at which the lines of the filter entry are counted in a
/// column of `column_width` cells: one less, but one at least.
pub open spec fn measure(column_width: u16) -> nat {
    if column_width > 2 {
        (column_width - 1) as nat
    } else {
        1
    }
}

/// The header as it is drawn.
pub struct HeaderState {
    /// The bordered block around the header.
    pub area: Area,
    /// The filter entry line.
    pub filter: LineView,
    /// The count of all sockets.
    pub count: Seq<char>,
    /// Where the count is drawn.
    pub count_area: Area,
    /// The hint on sorting.
    pub sort: Seq<char>,
    /// Where the hint is drawn.
    pub sort_area: Area,
}

/// The header, ready to be drawn.
#[derive(Debug)]
pub struct Header {
    /// The bordered block around the header.
    pub area: Area,
    /// The filter entry line.
    pub filter: FilterLine,
    /// The count of all sockets.
    pub count: String,
    /// Where the count is drawn.
    pub count_area: Area,
    /// The hint on sorting.
    pub sort: String,
    /// Where the hint is drawn.
    pub sort_area: Area,
}

impl View for Header {
    type V = HeaderState;

    open spec fn view(&self) -> HeaderState {
        HeaderState {
            area: self.area,
            filter: self.filter@,
            count: self.count@,
            count_area: self.count_area,
            sort: self.sort@,
            sort_area: self.sort_area,
        }
    }
}

/// The footer as it is drawn.
pub struct FooterState {
    /// The bordered block around the footer.
    pub area: Area,
    /// The inside of the block.
    pub inner: Area,
    /// The title on the border.
    pub title: Seq<char>,
    /// The hints inside.
    pub controls: Seq<char>,
}

/// The footer, ready to be drawn.
#[derive(Debug)]
pub struct Footer {
    /// The bordered block around the footer.
    pub area: Area,
    /// The inside of the block.
    pub inner: Area,
    /// The title on the border.
    pub title: String,
    /// The hints inside.
    pub controls: String,
}

impl View for Footer {
    type V = FooterState;

    open spec fn view(&self) -> FooterState {
        FooterState {
            area: self.area,
            inner: self.inner,
            title: self.title@,
            controls: self.controls@,
        }
    }
}

/// The footer of a mode on `area`: a bordered block with the mode's title
/// and, ten cells in from either side, the mode's hints.
pub open spec fn footer_of(mode: Mode, area: Area) -> FooterState {
    FooterState { area, inner: inside(area, 10), title: mode.title(), controls: mode.controls() }
}

/// The count of all sockets as the header shows it.
pub open spec fn count_text(total: nat) -> Seq<char> {
    "Total: "@ + decimal_digits(total)
}

/// The screen, ready to be drawn.
#[derive(Debug)]
pub struct Screen {
    pub header: Header,
    pub table: TableView,
    pub footer: Footer,
}

/// The dashboard.
pub struct App {
    running: bool,
    current_mode: Mode,
    current_screen: SocketGrid,
    filter: FilterBox,
}

impl View for App {
    type V = AppState;

    closed spec fn view(&self) -> AppState {
        AppState {
            running: self.running,
            mode: self.current_mode,
            grid: self.current_screen@,
            filter: self.filter@,
        }
    }
}

impl App {
    /// A dashboard of `sockets` that is not running yet: in `Browse`,
    /// unfiltered, scrolled to the top.
    pub fn new(sockets: Vec<Socket>) -> (app: App)
        ensures
            app@ == (AppState {
                running: false,
                mode: Mode::Browse,
                grid: GridState { sockets: sockets@, filters: Seq::empty(), scroll_offset: 0 },
                filter: FilterState::empty(),
            }),
            app@.wf(),
    {
        App {
            running: false,
            current_mode: Mode::Browse,
            current_screen: SocketGrid::new(sockets),
            filter: FilterBox::new(),
        }
    }

    /// Sets the dashboard running.
    pub fn start(&mut self)
        ensures
            final(self)@ == (AppState { running: true, ..old(self)@ }),
    {
        self.running = true;
    }

    /// Whether the dashboard goes on.
    pub fn is_running(&self) -> (b: bool)
        ensures
            b == self@.running,
    {
        self.running
    }

    /// What the keys are for at the moment.
    pub fn mode(&self) -> (m: Mode)
        ensures
            m == self@.mode,
    {
        self.current_mode
    }

    /// The table of sockets.
    pub fn grid(&self) -> (g: &SocketGrid)
        ensures
            g@ == self@.grid,
    {
        &self.current_screen
    }

    /// The filter entry.
    pub fn filter(&self) -> (f: &FilterBox)
        ensures
            f@ == self@.filter,
    {
        &self.filter
    }

    /// Stops the dashboard.
    pub fn quit(&mut self)
        ensures
            final(self)@ == (AppState { running: false, ..old(self)@ }),
    {
        self.running = false;
    }

    /// Takes the step of one key press.
    pub fn on_key_event(&mut self, key: KeyEvent)
        requires
            old(self)@.wf(),
        ensures
            final(self)@ == old(self)@.on_key(key),
            final(self)@.wf(),
    {
        if key.is_stop() {
            self.quit();
            return ;
        }
        if key.is_leave() {
            match self.current_mode {
                Mode::Browse => self.quit(),
                _ => {
                    self.current_mode = Mode::Browse;
                },
            }
            return ;
        }
        match self.current_mode {
            Mode::Browse => {
                match key.code {
                    KeyCode::Char(c) => {
                        if c == 'f' {
                            self.current_mode = Mode::Filter;
                        } else if c == 's' {
                            self.current_mode = Mode::Sort;
                        }
                    },
                    _ => {},
                }
            },
            Mode::Filter => {
                self.filter.on_key_event(key);
                self.current_screen.set_filters(self.filter.filters());
            },
            Mode::Sort => {},
        }
        self.current_screen.on_key_event(key);
    }

    /// The height of the header block on `area`, where the first of the
    /// three columns of the header is `column`.
    pub fn header_height(&self, area: Area, column: Area) -> (h: u16)
        ensures
            h == block_height(
                area.height,
                lines_needed(self@.filter.buffer.len(), measure(column.width)),
            ),
            1 <= h,
            area.height > 3 ==> h <= area.height - 2,
    {
        let width: usize = if column.width > 2 {
            (column.width - 1) as usize
        } else {
            1
        };
        let lines: usize = self.filter.count_lines(width);
        let usable: u16 = if area.height > 3 {
            area.height - 2
        } else {
            1
        };
        if lines < usable as usize {
            lines as u16
        } else {
            usable
        }
    }

    /// The header as it is drawn on `area`: a bordered block, as high as
    /// the filter entry needs, and inside it, side by side on one line,
    /// the filter entry, the count of all sockets and the hint on
    /// sorting. The filter entry takes its width from its place.
    ///
    /// How wide the three places are is the layout solver's choice; none
    /// of them reaches beyond the inside of the block. Buffer, cursor and
    /// filters of the filter entry stay as they are.
    pub fn render_header(&mut self, area: Area) -> (header: Header)
        requires
            old(self)@.wf(),
        ensures
            final(self)@ == (AppState {
                filter: FilterState {
                    visible_width: header.filter.text_area.width as nat,
                    ..old(self)@.filter
                },
                ..old(self)@
            }),
            final(self)@.wf(),
            header.area.x == area.x && header.area.y == area.y && header.area.width == area.width,
            exists|column: Area| #[trigger]
                spans(column, area, Direction::Horizontal) && within(
                    column,
                    area,
                    Direction::Horizontal,
                ) && header.area.height == block_height(
                    area.height,
                    lines_needed(old(self)@.filter.buffer.len(), measure(column.width)),
                ),
            1 <= header.area.height,
            area.height > 3 ==> header.area.height <= area.height - 2,
            header.filter@ == final(self)@.filter.line(
                header.filter.label_area,
                header.filter.text_area,
                old(self)@.mode == Mode::Filter,
            ),
            header.filter.text_area.width <= inside(header.area, 0).width,
            header.count@ == count_text(old(self)@.grid.sockets.len()),
            header.count_area.y == inside(header.area, 0).y && header.count_area.height == 1,
            within(header.count_area, inside(header.area, 0), Direction::Horizontal),
            header.sort@ == "Sort: Press s to sort"@,
            header.sort_area.y == inside(header.area, 0).y && header.sort_area.height == 1,
            within(header.sort_area, inside(header.area, 0), Direction::Horizontal),
    {
        let thirds: Vec<Constraint> = vec![
            Constraint::Ratio(1, 3),
            Constraint::Ratio(1, 3),
            Constraint::Ratio(1, 3),
        ];
        let columns: Vec<Area> = split(Direction::Horizontal, &thirds, area);
        let height: u16 = self.header_height(area, columns[0]);
        assert(spans(columns[0], area, Direction::Horizontal) && within(
            columns[0],
            area,
            Direction::Horizontal,
        ));
        let block: Area = Area { height, ..area };
        let places: Vec<Area> = split(Direction::Horizontal, &thirds, inner(block, 0));
        let filter_area: Area = Area { height: 1, ..places[0] };
        let count_area: Area = Area { height: 1, ..places[1] };
        let sort_area: Area = Area { height: 1, ..places[2] };
        let filtering: bool = match self.current_mode {
            Mode::Filter => true,
            _ => false,
        };
        let filter: FilterLine = self.filter.draw(filter_area, filtering);
        let mut count: String = String::from_str("Total: ");
        count.append(decimal(self.current_screen.total() as u64).as_str());
        Header {
            area: block,
            filter,
            count,
            count_area,
            sort: String::from_str("Sort: Press s to sort"),
            sort_area,
        }
    }

    /// The footer as it is drawn on `area`.
    pub fn render_footer(&self, area: Area) -> (footer: Footer)
        ensures
            footer@ == footer_of(self@.mode, area),
    {
        Footer {
            area,
            inner: inner(area, 10),
            title: String::from_str(self.current_mode.footer_title()),
            controls: String::from_str(self.current_mode.footer_controls()),
        }
    }

    /// The screen as it is drawn on `area`: the header on top, the footer
    /// at the bottom, and the table on the lines between them. The filter
    /// entry takes its width from its place in the header.
    ///
    /// How the lines of `area` are shared among the three is the layout
    /// solver's choice; each of them is as wide as `area`, and table and
    /// footer do not reach above or below it. Buffer, cursor and filters
    /// of the filter entry stay as they are.
    pub fn draw(&mut self, area: Area) -> (screen: Screen)
        requires
            old(self)@.wf(),
        ensures
            final(self)@ == (AppState {
                filter: FilterState {
                    visible_width: screen.header.filter.text_area.width as nat,
                    ..old(self)@.filter
                },
                ..old(self)@
            }),
            final(self)@.wf(),
            screen.header.area.x == area.x && screen.header.area.width == area.width,
            area.y <= screen.header.area.y,
            screen.header.filter.text_area.width <= area.width,
            screen.header.filter@ == final(self)@.filter.line(
                screen.header.filter.label_area,
                screen.header.filter.text_area,
                old(self)@.mode == Mode::Filter,
            ),
            screen.header.count@ == count_text(old(self)@.grid.sockets.len()),
            screen.header.sort@ == "Sort: Press s to sort"@,
            screen.table@ == old(self)@.grid.table(screen.table.area),
            spans(screen.table.area, area, Direction::Vertical),
            within(screen.table.area, area, Direction::Vertical),
            screen.footer@ == footer_of(old(self)@.mode, screen.footer.area),
            spans(screen.footer.area, area, Direction::Vertical),
            within(screen.footer.area, area, Direction::Vertical),
    {
        let regions: Vec<Area> = split(
            Direction::Vertical,
            &vec![Constraint::Max(5), Constraint::Min(3), Constraint::Length(3)],
            area,
        );
        let header: Header = self.render_header(regions[0]);
        let table: TableView = self.current_screen.draw(regions[1]);
        let footer: Footer = self.render_footer(regions[2]);
        Screen { header, table, footer }
    }
}

/// Every key leaves a valid dashboard valid: the scroll offset stays in
/// the rows, the cursor in the buffer, and the table goes on applying the
/// committed filters.
pub proof fn lemma_step_keeps_valid(s: AppState, key: KeyEvent)
    requires
        s.wf(),
    ensures
        s.on_key(key).wf(),
{
    crate::filter::lemma_key_keeps_cursor_in_buffer(s.filter, key.code, 0);
    let routed = s.routed(key);
    crate::sockets::lemma_offset_stays_in_rows(
        s.grid,
        key,
        s.filter.on_key(key.code).committed,
        s.grid.sockets,
    );
    crate::sockets::lemma_offset_stays_in_rows(
        routed.grid,
        key,
        routed.grid.filters,
        routed.grid.sockets,
    );
}

/// `q` stops the dashboard in `Browse`; in `Filter` and in `Sort` it
/// leads back to `Browse` and leaves the dashboard running.
pub proof fn lemma_quit_asymmetry(s: AppState, key: KeyEvent)
    requires
        key.code == KeyCode::Char('q'),
    ensures
        s.mode == Mode::Browse ==> !s.on_key(key).running,
        s.mode != Mode::Browse ==> s.on_key(key).mode == Mode::Browse && s.on_key(key).running
            == s.running,
        s.mode != Mode::Browse && s.running ==> s.on_key(key).running,
{
}

/// A key that stops the dashboard stops it in every mode and changes
/// nothing else.
pub proof fn lemma_stop_in_every_mode(s: AppState, key: KeyEvent)
    requires
        key.stops(),
    ensures
        s.on_key(key) == (AppState { running: false, ..s }),
{
}

} // verus!
