use sockview::geometry::Area;
use sockview::keys::{KeyCode, KeyEvent, KeyModifiers};
use sockview::socket::Socket;
use sockview::sockets::{headers, SocketGrid};

fn record(pid: u32) -> Socket {
    Socket::tcp(
        pid,
        "10.0.0.1".to_string(),
        "80".to_string(),
        "10.0.0.2".to_string(),
        "443".to_string(),
        "ESTABLISHED".to_string(),
    )
    .unwrap()
}

fn three_records() -> Vec<Socket> {
    vec![record(100), record(200), record(300)]
}

fn press(grid: &mut SocketGrid, code: KeyCode) {
    grid.on_key_event(KeyEvent::plain(code));
}

fn strings(items: &[&str]) -> Vec<String> {
    items.iter().map(|s| s.to_string()).collect()
}

#[test]
fn basic_browse() {
    let mut grid = SocketGrid::new(three_records());
    assert_eq!(grid.scroll_offset(), 0);
    press(&mut grid, KeyCode::Down);
    press(&mut grid, KeyCode::Down);
    assert_eq!(grid.scroll_offset(), 2);
    press(&mut grid, KeyCode::Down);
    assert_eq!(grid.scroll_offset(), 2);
}

#[test]
fn filter_narrows_rows() {
    let mut grid = SocketGrid::new(three_records());
    press(&mut grid, KeyCode::Down);
    press(&mut grid, KeyCode::Down);
    assert_eq!(grid.scroll_offset(), 2);
    grid.set_filters(&strings(&["200"]));
    assert_eq!(grid.row_count(), 1);
    assert_eq!(grid.scroll_offset(), 0);
    let table = grid.draw(Area { x: 0, y: 0, width: 100, height: 20 });
    assert_eq!(table.rows.len(), 1);
    assert_eq!(table.rows[0].cells[0], strings(&["200"]));
}

#[test]
fn new_grid_shows_every_record() {
    let grid = SocketGrid::new(three_records());
    assert_eq!(grid.total(), 3);
    assert_eq!(grid.row_count(), 3);
    assert_eq!(grid.sockets().len(), 3);
    assert_eq!(grid.sockets()[1].process_id, 200);
}

#[test]
fn up_stops_at_the_first_row() {
    let mut grid = SocketGrid::new(three_records());
    press(&mut grid, KeyCode::Up);
    assert_eq!(grid.scroll_offset(), 0);
    press(&mut grid, KeyCode::Down);
    press(&mut grid, KeyCode::Up);
    press(&mut grid, KeyCode::Up);
    assert_eq!(grid.scroll_offset(), 0);
}

#[test]
fn j_and_k_scroll_like_the_arrows() {
    let mut grid = SocketGrid::new(three_records());
    press(&mut grid, KeyCode::Char('j'));
    assert_eq!(grid.scroll_offset(), 1);
    press(&mut grid, KeyCode::Char('j'));
    press(&mut grid, KeyCode::Char('j'));
    assert_eq!(grid.scroll_offset(), 2);
    press(&mut grid, KeyCode::Char('k'));
    assert_eq!(grid.scroll_offset(), 1);
}

#[test]
fn scrolling_keys_work_with_any_modifier() {
    let mut grid = SocketGrid::new(three_records());
    let shift = KeyModifiers { ctrl: false, shift: true, alt: false };
    grid.on_key_event(KeyEvent::new(KeyCode::Down, shift));
    assert_eq!(grid.scroll_offset(), 1);
    grid.on_key_event(KeyEvent::new(KeyCode::Char('j'), KeyModifiers::control()));
    assert_eq!(grid.scroll_offset(), 2);
}

#[test]
fn other_keys_do_not_scroll() {
    let mut grid = SocketGrid::new(three_records());
    press(&mut grid, KeyCode::Down);
    for code in [
        KeyCode::Left,
        KeyCode::Right,
        KeyCode::Enter,
        KeyCode::Backspace,
        KeyCode::Esc,
        KeyCode::Resize,
        KeyCode::Other,
        KeyCode::Char('J'),
        KeyCode::Char('x'),
    ] {
        press(&mut grid, code);
        assert_eq!(grid.scroll_offset(), 1);
    }
}

#[test]
fn empty_grid_stays_at_zero() {
    let mut grid = SocketGrid::new(vec![]);
    press(&mut grid, KeyCode::Down);
    assert_eq!(grid.scroll_offset(), 0);
    press(&mut grid, KeyCode::Up);
    assert_eq!(grid.scroll_offset(), 0);
    assert_eq!(grid.row_count(), 0);
}

#[test]
fn filter_without_rows_brings_the_offset_to_zero() {
    let mut grid = SocketGrid::new(three_records());
    press(&mut grid, KeyCode::Down);
    grid.set_filters(&strings(&["no such text"]));
    assert_eq!(grid.row_count(), 0);
    assert_eq!(grid.scroll_offset(), 0);
    press(&mut grid, KeyCode::Down);
    assert_eq!(grid.scroll_offset(), 0);
}

#[test]
fn filters_are_a_conjunction() {
    let mut grid = SocketGrid::new(three_records());
    grid.set_filters(&strings(&["00"]));
    assert_eq!(grid.row_count(), 3);
    grid.set_filters(&strings(&["00", "2"]));
    assert_eq!(grid.row_count(), 3);
    grid.set_filters(&strings(&["00", "20"]));
    assert_eq!(grid.row_count(), 1);
    grid.set_filters(&strings(&["00", "20", "30"]));
    assert_eq!(grid.row_count(), 0);
    grid.set_filters(&strings(&["200", "200"]));
    assert_eq!(grid.row_count(), 1);
    grid.set_filters(&vec![]);
    assert_eq!(grid.row_count(), 3);
}

#[test]
fn offset_inside_the_rows_is_kept_by_a_filter() {
    let mut grid = SocketGrid::new(vec![record(100), record(250), record(251), record(300)]);
    press(&mut grid, KeyCode::Down);
    grid.set_filters(&strings(&["25"]));
    assert_eq!(grid.row_count(), 2);
    assert_eq!(grid.scroll_offset(), 1);
    press(&mut grid, KeyCode::Down);
    assert_eq!(grid.scroll_offset(), 1);
}

#[test]
fn new_snapshot_replaces_the_records() {
    let mut grid = SocketGrid::new(three_records());
    press(&mut grid, KeyCode::Down);
    press(&mut grid, KeyCode::Down);
    grid.read_sockets(vec![record(1), record(2)]);
    assert_eq!(grid.total(), 2);
    assert_eq!(grid.scroll_offset(), 1);
    grid.read_sockets(vec![]);
    assert_eq!(grid.total(), 0);
    assert_eq!(grid.scroll_offset(), 0);
}

#[test]
fn new_snapshot_is_filtered_like_the_old() {
    let mut grid = SocketGrid::new(three_records());
    grid.set_filters(&strings(&["200"]));
    grid.read_sockets(vec![record(200), record(1200), record(5)]);
    assert_eq!(grid.row_count(), 2);
}

#[test]
fn header_row_titles() {
    let titles = ["PID", "Protocol", "Local Address", "Foreign Address", "State"];
    assert_eq!(headers(), strings(&titles));
}

#[test]
fn table_has_the_header_whatever_is_filtered() {
    let mut grid = SocketGrid::new(three_records());
    let area = Area { x: 0, y: 5, width: 100, height: 20 };
    assert_eq!(grid.draw(area).header, headers());
    grid.set_filters(&strings(&["nothing"]));
    let table = grid.draw(area);
    assert_eq!(table.header, headers());
    assert!(table.rows.is_empty());
    assert_eq!(table.area, area);
    assert_eq!(table.column_width, 20);
}

#[test]
fn table_rows_hold_the_five_fields() {
    let grid = SocketGrid::new(three_records());
    let table = grid.draw(Area { x: 0, y: 0, width: 100, height: 20 });
    assert_eq!(table.rows.len(), 3);
    let row = &table.rows[0];
    assert_eq!(
        row.cells,
        vec![
            strings(&["100"]),
            strings(&["TCP"]),
            strings(&["10.0.0.1"]),
            strings(&["10.0.0.2:443"]),
            strings(&["ESTABLISHED"]),
        ]
    );
    assert_eq!(row.height, 2);
}

#[test]
fn table_wraps_in_a_narrow_area() {
    let grid = SocketGrid::new(vec![record(100)]);
    let table = grid.draw(Area { x: 0, y: 0, width: 25, height: 20 });
    assert_eq!(table.column_width, 5);
    let row = &table.rows[0];
    assert_eq!(row.cells[2], strings(&["10.0.", "0.1"]));
    assert_eq!(row.cells[3], strings(&["10.0.", "0.2:4", "43"]));
    assert_eq!(row.cells[4], strings(&["ESTAB", "LISHE", "D"]));
    assert_eq!(row.height, 6);
}

#[test]
fn row_is_as_high_as_its_tallest_cell_whichever_column_holds_it() {
    let long = "0123456789abcdefghijklmno";
    for column in 0..4usize {
        let mut socket = record(7);
        let mut texts = ["1", "2", "3", "4"].map(String::from);
        texts[column] = long.to_string();
        let [local, remote, port, state] = texts;
        socket.local_address = local;
        socket.remote_address = remote;
        socket.remote_port = port;
        socket.state = state;
        let fields = socket.fields();
        let grid = SocketGrid::new(vec![socket]);
        let table = grid.draw(Area { x: 0, y: 0, width: 25, height: 20 });
        let row = &table.rows[0];
        let tallest = row.cells.iter().map(|lines| lines.len().max(1)).max().unwrap();
        assert_eq!(row.cells.len(), 5);
        assert_eq!(row.height, 2 * tallest as u128);
        assert!(row.height >= 2 && row.height % 2 == 0);
        for (lines, field) in row.cells.iter().zip(&fields) {
            assert_eq!(&lines.concat(), field);
        }
    }
}

#[test]
fn table_in_an_area_narrower_than_five_columns() {
    let grid = SocketGrid::new(vec![record(100)]);
    let table = grid.draw(Area { x: 0, y: 0, width: 4, height: 20 });
    assert_eq!(table.column_width, 0);
    assert_eq!(table.rows[0].cells[4], strings(&["ESTABLISHED"]));
    assert_eq!(table.rows[0].height, 1);
}

#[test]
fn table_starts_at_the_scroll_offset() {
    let mut grid = SocketGrid::new(three_records());
    press(&mut grid, KeyCode::Down);
    let table = grid.draw(Area { x: 0, y: 0, width: 100, height: 20 });
    assert_eq!(table.rows.len(), 2);
    assert_eq!(table.rows[0].cells[0], strings(&["200"]));
    assert_eq!(table.rows[1].cells[0], strings(&["300"]));
}

#[test]
fn table_shows_the_rows_that_start_inside_the_area() {
    let grid = SocketGrid::new(three_records());
    let wide = |height: u16| Area { x: 0, y: 0, width: 100, height };
    assert_eq!(grid.draw(wide(0)).rows.len(), 0);
    assert_eq!(grid.draw(wide(1)).rows.len(), 0);
    assert_eq!(grid.draw(wide(2)).rows.len(), 1);
    assert_eq!(grid.draw(wide(3)).rows.len(), 1);
    assert_eq!(grid.draw(wide(4)).rows.len(), 2);
    assert_eq!(grid.draw(wide(5)).rows.len(), 2);
    assert_eq!(grid.draw(wide(6)).rows.len(), 3);
    assert_eq!(grid.draw(wide(60)).rows.len(), 3);
}
