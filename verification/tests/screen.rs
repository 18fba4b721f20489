use ratatui::layout::{Constraint, Layout, Rect};
use ratatui::widgets::{Block, Padding};
use sockview::app::{App, Mode};
use sockview::geometry::{Area, Position};
use sockview::keys::{KeyCode, KeyEvent};
use sockview::socket::Socket;
use sockview::sockets::headers;

fn record(pid: u32) -> Socket {
    Socket::tcp(
        pid,
        "10.0.0.1".to_string(),
        "80".to_string(),
        "10.0.0.2".to_string(),
        "443".to_string(),
        "ESTABLISHED".to_string(),
    )
    .unwrap()
}

fn running_app() -> App {
    let mut app = App::new(vec![record(100), record(200), record(300)]);
    app.start();
    app
}

fn area_of(r: Rect) -> Area {
    Area { x: r.x, y: r.y, width: r.width, height: r.height }
}

const SCREEN: Area = Area { x: 0, y: 0, width: 90, height: 24 };

#[test]
fn screen_shares_the_lines_among_header_table_and_footer() {
    let mut app = running_app();
    let screen = app.draw(SCREEN);
    assert_eq!(screen.table.area, Area { x: 0, y: 5, width: 90, height: 16 });
    assert_eq!(screen.footer.area, Area { x: 0, y: 21, width: 90, height: 3 });
    assert_eq!(screen.header.area.x, 0);
    assert_eq!(screen.header.area.y, 0);
    assert_eq!(screen.header.area.width, 90);
}

#[test]
fn screen_regions_agree_with_the_layout_solver() {
    for (width, height) in [(0u16, 0u16), (3, 2), (10, 5), (40, 11), (90, 24), (300, 100)] {
        let whole = Rect { x: 1, y: 2, width, height };
        let regions =
            Layout::vertical([Constraint::Max(5), Constraint::Min(3), Constraint::Length(3)])
                .split(whole);
        let mut app = running_app();
        let screen = app.draw(area_of(whole));
        assert_eq!(screen.table.area, area_of(regions[1]));
        assert_eq!(screen.footer.area, area_of(regions[2]));
        assert_eq!(screen.header.area.x, regions[0].x);
        assert_eq!(screen.header.area.y, regions[0].y);
        assert_eq!(screen.header.area.width, regions[0].width);
    }
}

#[test]
fn footer_follows_the_mode() {
    let mut app = running_app();
    let footer = app.render_footer(Area { x: 0, y: 21, width: 90, height: 3 });
    assert_eq!(footer.title, "BROWSING");
    assert_eq!(footer.controls, "q quit | ↑ or k move up | ↓ or j move down");
    app.on_key_event(KeyEvent::plain(KeyCode::Char('f')));
    let footer = app.render_footer(Area { x: 0, y: 21, width: 90, height: 3 });
    assert_eq!(footer.title, "FILTERING");
    assert_eq!(
        footer.controls,
        "q quit filtering | type any text then press Enter to add filter"
    );
    app.on_key_event(KeyEvent::plain(KeyCode::Char('q')));
    app.on_key_event(KeyEvent::plain(KeyCode::Char('s')));
    assert_eq!(app.mode(), Mode::Sort);
    let footer = app.render_footer(Area { x: 0, y: 21, width: 90, height: 3 });
    assert_eq!(footer.title, "SORTING");
    assert_eq!(
        footer.controls,
        "q quit sorting | → move right | ← move left | Enter toggle order"
    );
}

#[test]
fn footer_inside_leaves_border_and_padding() {
    let app = running_app();
    let area = Area { x: 0, y: 21, width: 90, height: 3 };
    let footer = app.render_footer(area);
    assert_eq!(footer.area, area);
    assert_eq!(footer.inner, Area { x: 11, y: 22, width: 68, height: 1 });
}

#[test]
fn footer_inside_of_a_small_area_is_empty() {
    let app = running_app();
    let footer = app.render_footer(Area { x: 4, y: 7, width: 21, height: 1 });
    assert_eq!(footer.inner, Area { x: 15, y: 8, width: 0, height: 0 });
    let footer = app.render_footer(Area { x: 4, y: 7, width: 0, height: 0 });
    assert_eq!(footer.inner, Area { x: 14, y: 7, width: 0, height: 0 });
}

#[test]
fn footer_inside_agrees_with_the_block() {
    let app = running_app();
    let corners = [0u16, 1, 2, 19, 20, 21, 22, 23, 100, u16::MAX - 11, u16::MAX - 1, u16::MAX];
    for x in corners {
        for width in corners {
            let sides =
                [(0u16, 0u16), (5, 1), (5, 2), (5, 3), (u16::MAX, 4), (u16::MAX - 1, u16::MAX)];
            for (y, height) in sides {
                let rect = Rect { x, y, width, height };
                let block = Block::bordered().title("T").padding(Padding::horizontal(10));
                let footer = app.render_footer(area_of(rect));
                assert_eq!(footer.inner, area_of(block.inner(rect)));
            }
        }
    }
}

#[test]
fn header_shows_the_count_and_the_sort_hint() {
    let mut app = running_app();
    let header = app.render_header(Area { x: 0, y: 0, width: 90, height: 5 });
    assert_eq!(header.count, "Total: 3");
    assert_eq!(header.sort, "Sort: Press s to sort");
    assert_eq!(header.filter.label, "Filters: ");
    assert_eq!(header.filter.text, "Press f to add filters");
    assert_eq!(header.filter.cursor, None);
}

#[test]
fn header_counts_all_sockets_whatever_is_filtered() {
    let mut app = running_app();
    app.on_key_event(KeyEvent::plain(KeyCode::Char('f')));
    for c in "200".chars() {
        app.on_key_event(KeyEvent::plain(KeyCode::Char(c)));
    }
    app.on_key_event(KeyEvent::plain(KeyCode::Enter));
    assert_eq!(app.grid().row_count(), 1);
    let header = app.render_header(Area { x: 0, y: 0, width: 90, height: 5 });
    assert_eq!(header.count, "Total: 3");
}

#[test]
fn header_block_is_as_high_as_the_filter_needs() {
    let mut app = running_app();
    let area = Area { x: 0, y: 0, width: 90, height: 5 };
    let header = app.render_header(area);
    assert_eq!(header.area, Area { x: 0, y: 0, width: 90, height: 1 });
    app.on_key_event(KeyEvent::plain(KeyCode::Char('f')));
    for _ in 0..25 {
        app.on_key_event(KeyEvent::plain(KeyCode::Char('x')));
    }
    let header = app.render_header(area);
    assert_eq!(header.area, Area { x: 0, y: 0, width: 90, height: 2 });
    for _ in 0..100 {
        app.on_key_event(KeyEvent::plain(KeyCode::Char('x')));
    }
    let header = app.render_header(area);
    assert_eq!(header.area, Area { x: 0, y: 0, width: 90, height: 3 });
}

#[test]
fn header_height_formula() {
    let app = running_app();
    let column = |width: u16| Area { x: 0, y: 0, width, height: 5 };
    let area = |height: u16| Area { x: 0, y: 0, width: 90, height };
    assert_eq!(app.header_height(area(5), column(30)), 1);
    assert_eq!(app.header_height(area(5), column(10)), 2);
    assert_eq!(app.header_height(area(5), column(4)), 3);
    assert_eq!(app.header_height(area(5), column(2)), 3);
    assert_eq!(app.header_height(area(5), column(0)), 3);
    assert_eq!(app.header_height(area(50), column(2)), 10);
    assert_eq!(app.header_height(area(3), column(2)), 1);
    assert_eq!(app.header_height(area(0), column(2)), 1);
    assert_eq!(app.header_height(area(4), column(2)), 2);
}

#[test]
fn header_places_agree_with_the_layout_solver() {
    let mut app = running_app();
    app.on_key_event(KeyEvent::plain(KeyCode::Char('f')));
    for _ in 0..40 {
        app.on_key_event(KeyEvent::plain(KeyCode::Char('x')));
    }
    let area = Rect { x: 0, y: 0, width: 90, height: 5 };
    let header = app.render_header(area_of(area));
    let thirds = Layout::horizontal([Constraint::Ratio(1, 3); 3]);
    let block = Rect { height: header.area.height, ..area };
    let places = thirds.split(Block::bordered().inner(block));
    assert_eq!(header.count_area, area_of(Rect { height: 1, ..places[1] }));
    assert_eq!(header.sort_area, area_of(Rect { height: 1, ..places[2] }));
    assert_eq!(header.filter.label_area.y, places[0].y);
    assert_eq!(header.filter.label_area.x, places[0].x);
    assert_eq!(header.filter.label_area.width + header.filter.text_area.width, places[0].width);
    assert_eq!(app.filter().visible_width(), header.filter.text_area.width);
}

#[test]
fn drawing_sets_the_width_of_the_filter_line() {
    let mut app = running_app();
    assert_eq!(app.filter().visible_width(), 0);
    let screen = app.draw(SCREEN);
    let width = screen.header.filter.text_area.width;
    assert!(width > 0);
    assert_eq!(app.filter().visible_width(), width);
    app.on_key_event(KeyEvent::plain(KeyCode::Char('f')));
    app.on_key_event(KeyEvent::plain(KeyCode::Char('a')));
    app.on_key_event(KeyEvent::plain(KeyCode::Char('b')));
    assert_eq!(app.filter().cursor(), 2);
    let screen = app.draw(SCREEN);
    let text_area = screen.header.filter.text_area;
    assert_eq!(screen.header.filter.text, "ab");
    assert_eq!(
        screen.header.filter.cursor,
        Some(Position { x: text_area.x + 2, y: text_area.y })
    );
}

#[test]
fn drawing_leaves_the_cursor_of_the_filter() {
    let mut app = running_app();
    app.draw(SCREEN);
    app.on_key_event(KeyEvent::plain(KeyCode::Char('f')));
    for _ in 0..12 {
        app.on_key_event(KeyEvent::plain(KeyCode::Char('x')));
    }
    assert_eq!(app.filter().cursor(), 12);
    let narrow = Area { x: 0, y: 0, width: 45, height: 24 };
    let screen = app.draw(narrow);
    let text_area = screen.header.filter.text_area;
    assert!(text_area.width < 12);
    assert_eq!(app.filter().visible_width(), text_area.width);
    assert_eq!(app.filter().cursor(), 12);
    assert_eq!(app.filter().input(), "xxxxxxxxxxxx");
    assert_eq!(
        screen.header.filter.cursor,
        Some(Position { x: text_area.x + 12, y: text_area.y })
    );
}

#[test]
fn screen_parts_lie_inside_the_screen() {
    for (width, height) in [(0u16, 0u16), (3, 2), (10, 5), (40, 11), (90, 24), (300, 100)] {
        let whole = Area { x: 2, y: 3, width, height };
        let mut app = running_app();
        let screen = app.draw(whole);
        for part in [screen.table.area, screen.footer.area] {
            assert_eq!(part.x, whole.x);
            assert_eq!(part.width, whole.width);
            assert!(part.y >= whole.y);
            assert!(part.y + part.height <= whole.y + whole.height);
        }
        assert!(screen.header.area.y >= whole.y);
        assert!(screen.header.filter.text_area.width <= width);
        let header = &screen.header;
        assert!(header.count_area.width <= header.area.width);
        assert!(header.sort_area.width <= header.area.width);
    }
}

#[test]
fn screen_table_shows_the_filtered_rows() {
    let mut app = running_app();
    let screen = app.draw(SCREEN);
    assert_eq!(screen.table.header, headers());
    assert_eq!(screen.table.column_width, 18);
    assert_eq!(screen.table.rows.len(), 3);
    app.on_key_event(KeyEvent::plain(KeyCode::Char('f')));
    for c in "300".chars() {
        app.on_key_event(KeyEvent::plain(KeyCode::Char(c)));
    }
    app.on_key_event(KeyEvent::plain(KeyCode::Enter));
    let screen = app.draw(SCREEN);
    assert_eq!(screen.table.rows.len(), 1);
    assert_eq!(screen.table.rows[0].cells[0], vec!["300".to_string()]);
    assert_eq!(screen.footer.title, "FILTERING");
}

#[test]
fn tiny_screen_does_not_panic() {
    for (width, height) in [(0u16, 0u16), (1, 1), (4, 2), (5, 3), (2, 40), (40, 2)] {
        let mut app = running_app();
        app.on_key_event(KeyEvent::plain(KeyCode::Char('f')));
        app.on_key_event(KeyEvent::plain(KeyCode::Char('x')));
        let screen = app.draw(Area { x: 0, y: 0, width, height });
        assert!(screen.header.area.height >= 1);
        assert_eq!(screen.table.column_width, width / 5);
    }
}
