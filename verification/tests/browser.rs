use driver_images::driverimage::DriverImage;
use driver_images::ui::{
    constraint_len_calculator, transition_for, Color, Constraint, Event, HighlightSpacing, KeyCode,
    KeyEventKind, Palette, Rect, Row, Shade, Style, TableColors, Transition, ITEM_HEIGHT, UI,
};

fn row(name: &str, creation_date: &str) -> DriverImage {
    DriverImage {
        name: name.to_string(),
        image_id: "ami-1".to_string(),
        creation_date: creation_date.to_string(),
        snapshots: vec![],
    }
}

fn three_rows() -> Vec<DriverImage> {
    vec![row("first", "2024-01-01"), row("second", "2024-01-02"), row("third", "2024-01-03")]
}

fn press(code: KeyCode) -> Event {
    Event::Key { code, kind: KeyEventKind::Press }
}

fn slate(shade: Shade) -> Color {
    Color { palette: Palette::Slate, shade }
}

fn blue(shade: Shade) -> Color {
    Color { palette: Palette::Blue, shade }
}

#[test]
fn browser_starts_on_the_first_row() {
    let ui = UI::new(three_rows());
    assert_eq!(ui.selected(), Some(0));
    assert_eq!(ui.scroll_offset(), 0);
    assert_eq!(ui.scroll_content_length(), 8);
    assert!(!ui.is_terminated());
    assert_eq!(ui.images(), &three_rows());
}

#[test]
fn browser_without_rows_selects_nothing() {
    let ui = UI::new(vec![]);
    assert_eq!(ui.selected(), None);
    assert_eq!(ui.scroll_offset(), 0);
    assert_eq!(ui.scroll_content_length(), 0);
    assert_eq!(ui.longest_item_lens(), (0, 0));
}

#[test]
fn previous_row_wraps_to_the_last_and_next_row_back() {
    let mut ui = UI::new(three_rows());
    ui.previous_row();
    assert_eq!(ui.selected(), Some(2));
    ui.next_row();
    assert_eq!(ui.selected(), Some(0));
}

#[test]
fn next_row_walks_through_the_rows() {
    let mut ui = UI::new(three_rows());
    ui.next_row();
    assert_eq!(ui.selected(), Some(1));
    assert_eq!(ui.scroll_offset(), ITEM_HEIGHT);
    ui.next_row();
    assert_eq!(ui.selected(), Some(2));
    assert_eq!(ui.scroll_offset(), 8);
    ui.next_row();
    assert_eq!(ui.selected(), Some(0));
    assert_eq!(ui.scroll_offset(), 0);
}

#[test]
fn previous_row_walks_back_through_the_rows() {
    let mut ui = UI::new(three_rows());
    ui.previous_row();
    assert_eq!((ui.selected(), ui.scroll_offset()), (Some(2), 8));
    ui.previous_row();
    assert_eq!((ui.selected(), ui.scroll_offset()), (Some(1), 4));
    ui.previous_row();
    assert_eq!((ui.selected(), ui.scroll_offset()), (Some(0), 0));
}

#[test]
fn single_row_stays_selected() {
    let mut ui = UI::new(vec![row("only", "2024-01-01")]);
    ui.next_row();
    assert_eq!(ui.selected(), Some(0));
    ui.previous_row();
    assert_eq!(ui.selected(), Some(0));
}

#[test]
fn moves_on_zero_rows_do_nothing() {
    let mut ui = UI::new(vec![]);
    ui.next_row();
    assert_eq!((ui.selected(), ui.scroll_offset()), (None, 0));
    ui.previous_row();
    assert_eq!((ui.selected(), ui.scroll_offset()), (None, 0));
    ui.handle_event(&press(KeyCode::Down));
    ui.handle_event(&press(KeyCode::Char('k')));
    assert_eq!(ui.selected(), None);
    assert!(!ui.is_terminated());
}

#[test]
fn keys_ask_for_transitions() {
    assert_eq!(transition_for(&press(KeyCode::Char('q'))), Some(Transition::Quit));
    assert_eq!(transition_for(&press(KeyCode::Esc)), Some(Transition::Quit));
    assert_eq!(transition_for(&press(KeyCode::Char('j'))), Some(Transition::NextRow));
    assert_eq!(transition_for(&press(KeyCode::Down)), Some(Transition::NextRow));
    assert_eq!(transition_for(&press(KeyCode::Char('k'))), Some(Transition::PreviousRow));
    assert_eq!(transition_for(&press(KeyCode::Up)), Some(Transition::PreviousRow));
}

#[test]
fn other_input_asks_for_nothing() {
    assert_eq!(transition_for(&press(KeyCode::Char('x'))), None);
    assert_eq!(transition_for(&press(KeyCode::Char('Q'))), None);
    assert_eq!(transition_for(&press(KeyCode::Other)), None);
    assert_eq!(transition_for(&Event::Other), None);
    assert_eq!(transition_for(&Event::Key { code: KeyCode::Char('q'), kind: KeyEventKind::Release }), None);
    assert_eq!(transition_for(&Event::Key { code: KeyCode::Down, kind: KeyEventKind::Repeat }), None);
}

#[test]
fn events_move_the_selection() {
    let mut ui = UI::new(three_rows());
    ui.handle_event(&press(KeyCode::Char('j')));
    assert_eq!(ui.selected(), Some(1));
    ui.handle_event(&press(KeyCode::Down));
    assert_eq!(ui.selected(), Some(2));
    ui.handle_event(&press(KeyCode::Up));
    assert_eq!(ui.selected(), Some(1));
    ui.handle_event(&press(KeyCode::Char('k')));
    assert_eq!(ui.selected(), Some(0));
    ui.handle_event(&press(KeyCode::Char('x')));
    ui.handle_event(&Event::Other);
    ui.handle_event(&Event::Key { code: KeyCode::Down, kind: KeyEventKind::Release });
    assert_eq!(ui.selected(), Some(0));
    assert!(!ui.is_terminated());
}

#[test]
fn quit_terminates_from_any_state() {
    let mut fresh = UI::new(three_rows());
    fresh.handle_event(&press(KeyCode::Char('q')));
    assert!(fresh.is_terminated());

    let mut moved = UI::new(three_rows());
    moved.next_row();
    moved.handle_event(&press(KeyCode::Esc));
    assert!(moved.is_terminated());
    assert_eq!(moved.selected(), Some(1));

    let mut empty = UI::new(vec![]);
    empty.quit();
    assert!(empty.is_terminated());
}

#[test]
fn terminated_browser_ignores_events() {
    let mut ui = UI::new(three_rows());
    ui.handle_event(&press(KeyCode::Char('q')));
    ui.handle_event(&press(KeyCode::Down));
    assert_eq!(ui.selected(), Some(0));
    assert!(ui.is_terminated());
}

#[test]
fn column_widths_are_the_longest_displayed_widths() {
    let rows = vec![row("abc", "2024-01-01"), row("a-longer-name", "x"), row("", "")];
    assert_eq!(constraint_len_calculator(&rows), (13, 10));
    assert_eq!(UI::new(rows).longest_item_lens(), (13, 10));
}

#[test]
fn column_widths_count_columns_not_characters() {
    let wide = "\u{65e5}\u{672c}\u{8a9e}";
    assert_eq!(constraint_len_calculator(&vec![row(wide, "e\u{301}")]), (6, 1));
}

#[test]
fn table_colors_of_an_accent_palette() {
    let colors = TableColors::new(Palette::Blue);
    assert_eq!(
        colors,
        TableColors {
            header_bg: blue(Shade::C900),
            header_fg: slate(Shade::C200),
            row_fg: slate(Shade::C200),
            selected_row_style_fg: blue(Shade::C400),
            selected_column_style_fg: blue(Shade::C400),
            selected_cell_style_fg: blue(Shade::C600),
            normal_row_color: slate(Shade::C950),
            alt_row_color: slate(Shade::C900),
        }
    );
    assert_eq!(UI::new(vec![]).colors(), colors);
}

#[test]
fn table_shows_name_and_creation_date() {
    let mut ui = UI::new(three_rows());
    ui.next_row();
    let area = Rect { x: 1, y: 2, width: 30, height: 12 };
    let frame = ui.render_table(area);
    assert_eq!(frame.area, area);
    assert_eq!(frame.selected, Some(1));
    assert_eq!(
        frame.table.header,
        Row {
            cells: vec!["Name".to_string(), "Creation Date".to_string()],
            style: Style { fg: Some(slate(Shade::C200)), bg: Some(blue(Shade::C900)), reversed: false },
            height: 1,
        }
    );
    let shades = [Shade::C950, Shade::C900, Shade::C950];
    let expected: Vec<Row> = three_rows()
        .iter()
        .zip(shades.iter())
        .map(|(image, shade)| Row {
            cells: vec![format!("\n{}\n", image.name), format!("\n{}\n", image.creation_date)],
            style: Style { fg: Some(slate(Shade::C200)), bg: Some(slate(*shade)), reversed: false },
            height: 4,
        })
        .collect();
    assert_eq!(frame.table.rows, expected);
    assert_eq!(frame.table.widths, vec![Constraint::Length(7), Constraint::Min(10)]);
    assert_eq!(
        frame.table.row_highlight_style,
        Style { fg: Some(blue(Shade::C400)), bg: None, reversed: true }
    );
    assert_eq!(
        frame.table.column_highlight_style,
        Style { fg: Some(blue(Shade::C400)), bg: None, reversed: false }
    );
    assert_eq!(
        frame.table.cell_highlight_style,
        Style { fg: Some(blue(Shade::C600)), bg: None, reversed: true }
    );
    assert_eq!(frame.table.highlight_spacing, HighlightSpacing::Always);
}

#[test]
fn table_without_rows_has_only_the_header() {
    let frame = UI::new(vec![]).render_table(Rect { x: 0, y: 0, width: 10, height: 10 });
    assert_eq!(frame.selected, None);
    assert_eq!(frame.table.rows, Vec::<Row>::new());
    assert_eq!(frame.table.header.cells, vec!["Name".to_string(), "Creation Date".to_string()]);
    assert_eq!(frame.table.widths, vec![Constraint::Length(1), Constraint::Min(0)]);
}

#[test]
fn frame_keeps_the_footer_free() {
    let ui = UI::new(three_rows());
    let frame = ui.draw(Rect { x: 0, y: 0, width: 80, height: 24 });
    assert_eq!(frame.area, Rect { x: 0, y: 0, width: 80, height: 14 });
    assert_eq!(frame.table, ui.render_table(frame.area).table);
    assert_eq!(frame.selected, Some(0));
}

#[test]
fn frame_on_a_moved_area_keeps_its_columns() {
    let ui = UI::new(three_rows());
    let frame = ui.draw(Rect { x: 5, y: 3, width: 40, height: 30 });
    assert_eq!(frame.area, Rect { x: 5, y: 3, width: 40, height: 20 });
}
