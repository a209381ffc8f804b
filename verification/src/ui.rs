//! The interactive result browser: its state, the transitions that input
//! events cause, and the table that each frame shows, all as plain values.
//! Putting a frame on the terminal and reading the keyboard is left to the
//! caller, who hands in one event at a time.

use crate::driverimage::{DriverImage, DriverImageModel};
use crate::text::{display_width, width_of};
use ratatui::layout::{Constraint as LayoutConstraint, Direction, Layout};
use vstd::arithmetic::div_mod::{
    lemma_mod_add_multiples_vanish, lemma_mod_bound, lemma_mod_self_0, lemma_small_mod,
};
use vstd::prelude::*;
use vstd::string::StringExecFns;

verus! {

/// The height of a table row, in terminal lines; the scroll offset advances
/// by this much per row.
pub const ITEM_HEIGHT: usize = 4;

/// The least height of the part of the frame that holds the table.
pub const TABLE_MIN_HEIGHT: u16 = 10;

/// The height of the part of the frame that is kept free below the table.
pub const FOOTER_HEIGHT: u16 = 10;

/// A key of the keyboard, as far as the browser tells keys apart.
#[derive(Clone, Copy, Debug, PartialEq, Eq)]
pub enum KeyCode {
    Char(char),
    Esc,
    Down,
    Up,
    Other,
}

/// What happened to a key.
#[derive(Clone, Copy, Debug, PartialEq, Eq)]
pub enum KeyEventKind {
    Press,
    Repeat,
    Release,
}

/// An input event: a key event, or anything else that the terminal reports.
#[derive(Clone, Copy, Debug, PartialEq, Eq)]
pub enum Event {
    Key { code: KeyCode, kind: KeyEventKind },
    Other,
}

/// A transition of the browser.
#[derive(Clone, Copy, Debug, PartialEq, Eq)]
pub enum Transition {
    NextRow,
    PreviousRow,
    Quit,
}

/// The transition that an event asks for: a pressed `q` or Escape quits, a
/// pressed `j` or Down selects the next row, a pressed `k` or Up the previous
/// one; any other event asks for none.
pub open spec fn transition_of(event: Event) -> Option<Transition> {
    match event {
        Event::Key { code, kind: KeyEventKind::Press } => match code {
            KeyCode::Esc => Some(Transition::Quit),
            KeyCode::Down => Some(Transition::NextRow),
            KeyCode::Up => Some(Transition::PreviousRow),
            KeyCode::Char(c) => if c == 'q' {
                Some(Transition::Quit)
            } else if c == 'j' {
                Some(Transition::NextRow)
            } else if c == 'k' {
                Some(Transition::PreviousRow)
            } else {
                None
            },
            KeyCode::Other => None,
        },
        _ => None,
    }
}

/// The transition that an event asks for, if any.
pub fn transition_for(event: &Event) -> (transition: Option<Transition>)
    ensures
        transition == transition_of(*event),
{
    match event {
        Event::Key { code, kind: KeyEventKind::Press } => match code {
            KeyCode::Esc => Some(Transition::Quit),
            KeyCode::Down => Some(Transition::NextRow),
            KeyCode::Up => Some(Transition::PreviousRow),
            KeyCode::Char(c) => if *c == 'q' {
                Some(Transition::Quit)
            } else if *c == 'j' {
                Some(Transition::NextRow)
            } else if *c == 'k' {
                Some(Transition::PreviousRow)
            } else {
                None
            },
            KeyCode::Other => None,
        },
        _ => None,
    }
}

/// A colour palette that the browser draws from.
#[derive(Clone, Copy, Debug, PartialEq, Eq)]
pub enum Palette {
    Slate,
    Blue,
}

/// A shade within a palette, from light to dark.
#[derive(Clone, Copy, Debug, PartialEq, Eq)]
pub enum Shade {
    C200,
    C400,
    C600,
    C900,
    C950,
}

/// A colour: a shade of a palette.
#[derive(Clone, Copy, Debug, PartialEq, Eq)]
pub struct Color {
    pub palette: Palette,
    pub shade: Shade,
}

/// The colours of the table's parts.
#[derive(Clone, Copy, Debug, PartialEq, Eq)]
pub struct TableColors {
    pub header_bg: Color,
    pub header_fg: Color,
    pub row_fg: Color,
    pub selected_row_style_fg: Color,
    pub selected_column_style_fg: Color,
    pub selected_cell_style_fg: Color,
    pub normal_row_color: Color,
    pub alt_row_color: Color,
}

/// How a cell, a row or a highlight is drawn.
#[derive(Clone, Copy, Debug, PartialEq, Eq)]
pub struct Style {
    pub fg: Option<Color>,
    pub bg: Option<Color>,
    pub reversed: bool,
}

/// The width that a table column asks for.
#[derive(Clone, Copy, Debug, PartialEq, Eq)]
pub enum Constraint {
    Length(u16),
    Min(u16),
}

/// When the table keeps room for the highlight symbol.
#[derive(Clone, Copy, Debug, PartialEq, Eq)]
pub enum HighlightSpacing {
    Always,
    WhenSelected,
    Never,
}

/// A rectangle of terminal cells.
#[derive(Clone, Copy, Debug, PartialEq, Eq)]
pub struct Rect {
    pub x: u16,
    pub y: u16,
    pub width: u16,
    pub height: u16,
}

/// One row of the table: the text of its cells, its style and its height.
#[derive(Clone, Debug, PartialEq, Eq)]
pub struct Row {
    pub cells: Vec<String>,
    pub style: Style,
    pub height: u16,
}

/// The table of one frame.
#[derive(Clone, Debug, PartialEq, Eq)]
pub struct Table {
    pub header: Row,
    pub rows: Vec<Row>,
    pub widths: Vec<Constraint>,
    pub row_highlight_style: Style,
    pub column_highlight_style: Style,
    pub cell_highlight_style: Style,
    pub highlight_spacing: HighlightSpacing,
}

/// What one frame shows: the table, where it stands, and the selected row.
#[derive(Clone, Debug, PartialEq, Eq)]
pub struct TableFrame {
    pub area: Rect,
    pub table: Table,
    pub selected: Option<usize>,
}

/// The mathematical content of a [`Row`].
pub struct RowModel {
    pub cells: Seq<Seq<char>>,
    pub style: Style,
    pub height: u16,
}

/// The mathematical content of a [`Table`].
pub struct TableModel {
    pub header: RowModel,
    pub rows: Seq<RowModel>,
    pub widths: Seq<Constraint>,
    pub row_highlight_style: Style,
    pub column_highlight_style: Style,
    pub cell_highlight_style: Style,
    pub highlight_spacing: HighlightSpacing,
}

/// The mathematical content of a [`TableFrame`].
pub struct TableFrameModel {
    pub area: Rect,
    pub table: TableModel,
    pub selected: Option<nat>,
}

impl DeepView for Row {
    type V = RowModel;

    open spec fn deep_view(&self) -> RowModel {
        RowModel { cells: self.cells.deep_view(), style: self.style, height: self.height }
    }
}

impl DeepView for Table {
    type V = TableModel;

    open spec fn deep_view(&self) -> TableModel {
        TableModel {
            header: self.header.deep_view(),
            rows: self.rows.deep_view(),
            widths: self.widths@,
            row_highlight_style: self.row_highlight_style,
            column_highlight_style: self.column_highlight_style,
            cell_highlight_style: self.cell_highlight_style,
            highlight_spacing: self.highlight_spacing,
        }
    }
}

impl DeepView for TableFrame {
    type V = TableFrameModel;

    open spec fn deep_view(&self) -> TableFrameModel {
        TableFrameModel {
            area: self.area,
            table: self.table.deep_view(),
            selected: match self.selected {
                Some(i) => Some(i as nat),
                None => None,
            },
        }
    }
}

impl View for TableFrame {
    type V = TableFrameModel;

    open spec fn view(&self) -> TableFrameModel {
        self.deep_view()
    }
}

impl TableColors {
    /// The table's colours with `color` as the accent palette: the header's
    /// background and the highlights take their shades from it, the text and
    /// the rows' backgrounds theirs from slate.
    pub open spec fn spec_new(color: Palette) -> TableColors {
        TableColors {
            header_bg: Color { palette: color, shade: Shade::C900 },
            header_fg: Color { palette: Palette::Slate, shade: Shade::C200 },
            row_fg: Color { palette: Palette::Slate, shade: Shade::C200 },
            selected_row_style_fg: Color { palette: color, shade: Shade::C400 },
            selected_column_style_fg: Color { palette: color, shade: Shade::C400 },
            selected_cell_style_fg: Color { palette: color, shade: Shade::C600 },
            normal_row_color: Color { palette: Palette::Slate, shade: Shade::C950 },
            alt_row_color: Color { palette: Palette::Slate, shade: Shade::C900 },
        }
    }

    /// The table's colours with `color` as the accent palette.
    #[verifier::when_used_as_spec(spec_new)]
    pub fn new(color: Palette) -> (colors: TableColors)
        ensures
            colors == TableColors::spec_new(color),
    {
        TableColors {
            header_bg: Color { palette: color, shade: Shade::C900 },
            header_fg: Color { palette: Palette::Slate, shade: Shade::C200 },
            row_fg: Color { palette: Palette::Slate, shade: Shade::C200 },
            selected_row_style_fg: Color { palette: color, shade: Shade::C400 },
            selected_column_style_fg: Color { palette: color, shade: Shade::C400 },
            selected_cell_style_fg: Color { palette: color, shade: Shade::C600 },
            normal_row_color: Color { palette: Palette::Slate, shade: Shade::C950 },
            alt_row_color: Color { palette: Palette::Slate, shade: Shade::C900 },
        }
    }
}

/// The greatest displayed width among the texts, 0 where there is none.
pub open spec fn longest_width(texts: Seq<Seq<char>>) -> nat
    decreases texts.len(),
{
    if texts.len() == 0 {
        0
    } else {
        let rest = longest_width(texts.drop_last());
        let width = display_width(texts.last());
        if width > rest {
            width
        } else {
            rest
        }
    }
}

/// The names of the rows, in order.
pub open spec fn names(rows: Seq<DriverImageModel>) -> Seq<Seq<char>> {
    Seq::new(rows.len(), |i: int| rows[i].name)
}

/// The creation dates of the rows, in order.
pub open spec fn creation_dates(rows: Seq<DriverImageModel>) -> Seq<Seq<char>> {
    Seq::new(rows.len(), |i: int| rows[i].creation_date)
}

/// The widest name and the widest creation date among the rows, each cut to
/// its low 16 bits.
pub open spec fn longest_item_lens(rows: Seq<DriverImageModel>) -> (u16, u16) {
    (longest_width(names(rows)) as u16, longest_width(creation_dates(rows)) as u16)
}

/// `longest_width` is the maximum of the texts' widths: no text is wider,
/// and unless there is no text, one of them is that wide.
pub proof fn lemma_longest_width(texts: Seq<Seq<char>>)
    ensures
        forall|i: int|
            0 <= i < texts.len() ==> display_width(#[trigger] texts[i]) <= longest_width(texts),
        texts.len() == 0 ==> longest_width(texts) == 0,
        texts.len() > 0 ==> exists|i: int|
            0 <= i < texts.len() && display_width(#[trigger] texts[i]) == longest_width(texts),
    decreases texts.len(),
{
    if texts.len() > 0 {
        let front = texts.drop_last();
        lemma_longest_width(front);
        assert forall|i: int| 0 <= i < texts.len() implies display_width(#[trigger] texts[i])
            <= longest_width(texts) by {
            if i < front.len() {
                assert(texts[i] == front[i]);
            }
        }
    }
}

/// The widths that the two columns need: the greatest displayed width of a
/// name and of a creation date, each cut to 16 bits.
pub fn constraint_len_calculator(items: &Vec<DriverImage>) -> (lens: (u16, u16))
    ensures
        lens == longest_item_lens(items.deep_view()),
{
    let mut name_len: usize = 0;
    let mut address_len: usize = 0;
    let mut i: usize = 0;
    while i < items.len()
        invariant
            i <= items.len(),
            name_len == longest_width(names(items.deep_view()).take(i as int)),
            address_len == longest_width(creation_dates(items.deep_view()).take(i as int)),
        decreases items.len() - i,
    {
        let name_width = width_of(items[i].name.as_str());
        let address_width = width_of(items[i].creation_date.as_str());
        proof {
            let all_names = names(items.deep_view());
            let all_dates = creation_dates(items.deep_view());
            assert(all_names.take(i + 1).drop_last() =~= all_names.take(i as int));
            assert(all_dates.take(i + 1).drop_last() =~= all_dates.take(i as int));
        }
        if name_width > name_len {
            name_len = name_width;
        }
        if address_width > address_len {
            address_len = address_width;
        }
        i += 1;
    }
    proof {
        let all_names = names(items.deep_view());
        let all_dates = creation_dates(items.deep_view());
        assert(all_names.take(items.len() as int) =~= all_names);
        assert(all_dates.take(items.len() as int) =~= all_dates);
    }
    (name_len as u16, address_len as u16)
}

/// The text of a table cell: the content on a line of its own, between two
/// line breaks.
pub open spec fn cell_text(content: Seq<char>) -> Seq<char> {
    "\n"@ + content + "\n"@
}

/// The header row: the two column titles in the header's colours, one line
/// high.
pub open spec fn header_model(colors: TableColors) -> RowModel {
    RowModel {
        cells: seq!["Name"@, "Creation Date"@],
        style: Style { fg: Some(colors.header_fg), bg: Some(colors.header_bg), reversed: false },
        height: 1,
    }
}

/// The row of the image at `index`: its name and creation date, on the
/// normal background at even indices and the alternate one at odd indices.
pub open spec fn row_model(image: DriverImageModel, index: int, colors: TableColors) -> RowModel {
    RowModel {
        cells: seq![cell_text(image.name), cell_text(image.creation_date)],
        style: Style {
            fg: Some(colors.row_fg),
            bg: Some(
                if index % 2 == 0 {
                    colors.normal_row_color
                } else {
                    colors.alt_row_color
                },
            ),
            reversed: false,
        },
        height: 4,
    }
}

/// The width of the name column: one more than the widest name, for
/// padding, as far as 16 bits hold it.
pub open spec fn name_column_width(longest: u16) -> u16 {
    if longest < u16::MAX {
        (longest + 1) as u16
    } else {
        u16::MAX
    }
}

/// The table that shows the rows: a header, one row per image in order, a
/// name column of fixed width and a date column of least width, and the
/// three highlight styles.
pub open spec fn table_model(rows: Seq<DriverImageModel>, colors: TableColors) -> TableModel {
    TableModel {
        header: header_model(colors),
        rows: Seq::new(rows.len(), |i: int| row_model(rows[i], i, colors)),
        widths: seq![
            Constraint::Length(name_column_width(longest_item_lens(rows).0)),
            Constraint::Min(longest_item_lens(rows).1),
        ],
        row_highlight_style: Style {
            fg: Some(colors.selected_row_style_fg),
            bg: None,
            reversed: true,
        },
        column_highlight_style: Style {
            fg: Some(colors.selected_column_style_fg),
            bg: None,
            reversed: false,
        },
        cell_highlight_style: Style {
            fg: Some(colors.selected_cell_style_fg),
            bg: None,
            reversed: true,
        },
        highlight_spacing: HighlightSpacing::Always,
    }
}

/// The text of a table cell that shows `content`.
fn cell(content: &String) -> (text: String)
    ensures
        text@ == cell_text(content@),
{
    let mut text = "\n".to_owned();
    text.append(content.as_str());
    text.append("\n");
    text
}

/// The state of the browser.
pub struct BrowserState {
    pub rows: Seq<DriverImageModel>,
    pub selected_index: Option<nat>,
    pub scroll_offset: nat,
    pub terminated: bool,
}

impl BrowserState {
    /// What holds of every state that the browser reaches: a row is selected
    /// exactly when there are rows, it is one of them, and the scroll offset
    /// is that of the selected row.
    pub open spec fn valid(self) -> bool {
        &&& self.selected_index is None <==> self.rows.len() == 0
        &&& self.selected_index matches Some(i) ==> i < self.rows.len()
        &&& self.scroll_offset == match self.selected_index {
            Some(i) => i * ITEM_HEIGHT as nat,
            None => 0,
        }
    }

    /// The state in which the browser starts on the given rows: the first
    /// row is selected if there is one, and nothing is scrolled.
    pub open spec fn initial(rows: Seq<DriverImageModel>) -> BrowserState {
        BrowserState {
            rows,
            selected_index: if rows.len() > 0 {
                Some(0)
            } else {
                None
            },
            scroll_offset: 0,
            terminated: false,
        }
    }

    /// The state with the row at `index` selected and the view scrolled to
    /// it.
    pub open spec fn select(self, index: nat) -> BrowserState {
        BrowserState {
            selected_index: Some(index),
            scroll_offset: index * ITEM_HEIGHT as nat,
            ..self
        }
    }

    /// The state after `NextRow`: unchanged without rows, else the row after
    /// the selected one is selected, the first after the last.
    pub open spec fn next_row(self) -> BrowserState {
        if self.rows.len() == 0 {
            self
        } else {
            match self.selected_index {
                Some(i) => self.select((i + 1) % self.rows.len()),
                None => self.select(0),
            }
        }
    }

    /// The state after `PreviousRow`: unchanged without rows, else the row
    /// before the selected one is selected, the last before the first.
    pub open spec fn previous_row(self) -> BrowserState {
        if self.rows.len() == 0 {
            self
        } else {
            match self.selected_index {
                Some(i) => self.select(
                    ((i + self.rows.len() - 1) % (self.rows.len() as int)) as nat,
                ),
                None => self.select(0),
            }
        }
    }

    /// The state after `Quit`: terminated, and otherwise unchanged.
    pub open spec fn quit(self) -> BrowserState {
        BrowserState { terminated: true, ..self }
    }

    /// The state after a transition.
    pub open spec fn apply(self, transition: Transition) -> BrowserState {
        match transition {
            Transition::NextRow => self.next_row(),
            Transition::PreviousRow => self.previous_row(),
            Transition::Quit => self.quit(),
        }
    }

    /// The state after an event: that of the transition the event asks for
    /// while the browser is browsing, and the same state otherwise.
    pub open spec fn handle(self, event: Event) -> BrowserState {
        match transition_of(event) {
            Some(transition) if !self.terminated => self.apply(transition),
            _ => self,
        }
    }

    /// How far the view can be scrolled: the scroll offset of the last row,
    /// 0 without rows.
    pub open spec fn scroll_content_length(self) -> nat {
        if self.rows.len() == 0 {
            0
        } else {
            ((self.rows.len() - 1) * ITEM_HEIGHT) as nat
        }
    }

    /// The frame that shows the state, with the table in `area`.
    pub open spec fn frame(self, area: Rect) -> TableFrameModel {
        TableFrameModel {
            area,
            table: table_model(self.rows, TableColors::spec_new(Palette::Blue)),
            selected: self.selected_index,
        }
    }
}

/// The browser starts in a valid state, and browsing.
pub proof fn lemma_initial_state_is_valid(rows: Seq<DriverImageModel>)
    ensures
        BrowserState::initial(rows).valid(),
        !BrowserState::initial(rows).terminated,
{
}

/// Every transition, and every event, leads from a valid state to a valid
/// state and leaves the rows as they are.
pub proof fn lemma_transitions_keep_valid(state: BrowserState, transition: Transition, event: Event)
    requires
        state.valid(),
    ensures
        state.apply(transition).valid(),
        state.apply(transition).rows == state.rows,
        state.handle(event).valid(),
        state.handle(event).rows == state.rows,
{
    if state.rows.len() > 0 {
        let len = state.rows.len() as int;
        let i = state.selected_index->0 as int;
        lemma_mod_bound(i + 1, len);
        lemma_mod_bound(i + len - 1, len);
    }
}

/// The selection wraps around: the row after the last is the first, and the
/// row before the first is the last; anywhere else the neighbour is
/// selected.
pub proof fn lemma_selection_wraps(state: BrowserState)
    requires
        state.valid(),
        state.rows.len() > 0,
    ensures
        ({
            let i = state.selected_index->0;
            let last = (state.rows.len() - 1) as nat;
            &&& state.next_row().selected_index == Some(
                if i == last {
                    0nat
                } else {
                    i + 1
                },
            )
            &&& state.previous_row().selected_index == Some(
                if i == 0 {
                    last
                } else {
                    (i - 1) as nat
                },
            )
        }),
{
    let len = state.rows.len() as int;
    let i = state.selected_index->0 as int;
    if i + 1 < len {
        lemma_small_mod((i + 1) as nat, len as nat);
    } else {
        lemma_mod_self_0(len);
    }
    if i == 0 {
        lemma_small_mod((len - 1) as nat, len as nat);
    } else {
        lemma_mod_add_multiples_vanish(i - 1, len);
        lemma_small_mod((i - 1) as nat, len as nat);
    }
}

/// Without rows neither `NextRow` nor `PreviousRow` changes anything, and
/// nothing is selected.
pub proof fn lemma_no_rows_no_move(state: BrowserState)
    requires
        state.valid(),
        state.rows.len() == 0,
    ensures
        state.next_row() == state,
        state.previous_row() == state,
        state.selected_index is None,
{
}

/// `Quit` terminates the browser from any state, and so does every event
/// that asks for it; a terminated browser stays as it is.
pub proof fn lemma_quit_terminates(state: BrowserState, event: Event)
    ensures
        state.apply(Transition::Quit).terminated,
        transition_of(event) == Some(Transition::Quit) ==> state.handle(event).terminated,
        state.terminated ==> state.handle(event) == state,
{
}

/// Where the browser stands in its rows.
#[derive(Clone, Copy, Debug)]
struct Position {
    selected: Option<usize>,
    scroll_offset: usize,
}

/// The browser: the rows it shows, the selected row, and whether it has
/// been quit.
#[derive(Debug)]
pub struct UI {
    images: Vec<DriverImage>,
    position: Position,
    longest_item_lens: (u16, u16),
    colors: TableColors,
    terminated: bool,
}

impl View for UI {
    type V = BrowserState;

    closed spec fn view(&self) -> BrowserState {
        BrowserState {
            rows: self.images.deep_view(),
            selected_index: match self.position.selected {
                Some(i) => Some(i as nat),
                None => None,
            },
            scroll_offset: self.position.scroll_offset as nat,
            terminated: self.terminated,
        }
    }
}

/// `ratatui::layout::Layout::split` on the default layout with the vertical
/// direction and the two constraints `Min(min)` and `Length(length)`: the
/// area is cut from top to bottom into one part per constraint. Each part
/// has the area's left edge and width; where the constraint solver sets the
/// cuts is not stated here. The constraints that the solver must meet (the
/// parts lie within the area, one after the other) can be met for every
/// area, so the call returns for every area.
#[verifier::external_body]
fn split_vertical(area: Rect, min: u16, length: u16) -> (parts: Vec<Rect>)
    ensures
        parts.len() == 2,
        forall|i: int|
            0 <= i < 2 ==> (#[trigger] parts[i]).x == area.x && parts[i].width == area.width,
{
    let whole = ratatui::layout::Rect {
        x: area.x,
        y: area.y,
        width: area.width,
        height: area.height,
    };
    let layout = Layout::default().direction(Direction::Vertical).constraints(
        vec![LayoutConstraint::Min(min), LayoutConstraint::Length(length)],
    );
    layout.split(whole).iter().map(
        |part| Rect { x: part.x, y: part.y, width: part.width, height: part.height },
    ).collect()
}

impl UI {
    #[verifier::type_invariant]
    spec fn well_formed(&self) -> bool {
        &&& self.images.len() * ITEM_HEIGHT <= usize::MAX
        &&& match self.position.selected {
            Some(i) => i < self.images.len() && self.position.scroll_offset == i * ITEM_HEIGHT,
            None => self.images.len() == 0 && self.position.scroll_offset == 0,
        }
        &&& self.longest_item_lens == longest_item_lens(self.images.deep_view())
        &&& self.colors == TableColors::spec_new(Palette::Blue)
    }

    /// A browser on the given rows: the first row is selected if there is
    /// one, and nothing is scrolled. The scroll offset of every row has to
    /// fit in `usize`.
    pub fn new(images: Vec<DriverImage>) -> (ui: UI)
        requires
            images.len() * ITEM_HEIGHT <= usize::MAX,
        ensures
            ui@ == BrowserState::initial(images.deep_view()),
            ui@.valid(),
    {
        let selected = if images.len() > 0 {
            Some(0)
        } else {
            None
        };
        UI {
            position: Position { selected, scroll_offset: 0 },
            longest_item_lens: constraint_len_calculator(&images),
            images,
            colors: TableColors::new(Palette::Blue),
            terminated: false,
        }
    }

    /// Takes one input event: makes the transition that it asks for while
    /// the browser is browsing, and ignores it otherwise.
    pub fn handle_event(&mut self, event: &Event)
        ensures
            final(self)@ == old(self)@.handle(*event),
            final(self)@.valid(),
    {
        proof {
            use_type_invariant(&*self);
        }
        if self.terminated {
            return ;
        }
        match transition_for(event) {
            Some(Transition::NextRow) => self.next_row(),
            Some(Transition::PreviousRow) => self.previous_row(),
            Some(Transition::Quit) => self.quit(),
            None => {},
        }
    }

    /// One frame on a terminal of the given area: the table of the current
    /// state in the upper part of the area, above a footer that is kept
    /// free.
    pub fn draw(&self, area: Rect) -> (frame: TableFrame)
        ensures
            frame@ == self@.frame(frame.area),
            frame.area.x == area.x,
            frame.area.width == area.width,
    {
        let layout = split_vertical(area, TABLE_MIN_HEIGHT, FOOTER_HEIGHT);
        self.render_table(layout[0])
    }

    /// The table of the current state, to be shown in `area`, with the
    /// selected row to be highlighted.
    pub fn render_table(&self, area: Rect) -> (frame: TableFrame)
        ensures
            frame@ == self@.frame(area),
    {
        proof {
            use_type_invariant(self);
        }
        let colors = self.colors;
        let header_style = Style {
            fg: Some(colors.header_fg),
            bg: Some(colors.header_bg),
            reversed: false,
        };
        let selected_row_style = Style {
            fg: Some(colors.selected_row_style_fg),
            bg: None,
            reversed: true,
        };
        let selected_col_style = Style {
            fg: Some(colors.selected_column_style_fg),
            bg: None,
            reversed: false,
        };
        let selected_cell_style = Style {
            fg: Some(colors.selected_cell_style_fg),
            bg: None,
            reversed: true,
        };

        let mut titles: Vec<String> = Vec::new();
        titles.push("Name".to_owned());
        titles.push("Creation Date".to_owned());
        let header = Row { cells: titles, style: header_style, height: 1 };
        assert(header.deep_view().cells =~= header_model(colors).cells);

        let mut rows: Vec<Row> = Vec::new();
        let mut i: usize = 0;
        while i < self.images.len()
            invariant
                i <= self.images.len(),
                rows.len() == i,
                forall|j: int|
                    0 <= j < i ==> (#[trigger] rows[j]).deep_view() == row_model(
                        self.images[j].deep_view(),
                        j,
                        colors,
                    ),
            decreases self.images.len() - i,
        {
            let image = &self.images[i];
            let color = if i % 2 == 0 {
                colors.normal_row_color
            } else {
                colors.alt_row_color
            };
            let mut cells: Vec<String> = Vec::new();
            cells.push(cell(&image.name));
            cells.push(cell(&image.creation_date));
            let row = Row {
                cells,
                style: Style { fg: Some(colors.row_fg), bg: Some(color), reversed: false },
                height: 4,
            };
            assert(row.deep_view().cells =~= row_model(image.deep_view(), i as int, colors).cells);
            rows.push(row);
            i += 1;
        }

        // One more than the longest name, for padding.
        let name_width = if self.longest_item_lens.0 < u16::MAX {
            self.longest_item_lens.0 + 1
        } else {
            u16::MAX
        };
        let mut widths: Vec<Constraint> = Vec::new();
        widths.push(Constraint::Length(name_width));
        widths.push(Constraint::Min(self.longest_item_lens.1));
        let table = Table {
            header,
            rows,
            widths,
            row_highlight_style: selected_row_style,
            column_highlight_style: selected_col_style,
            cell_highlight_style: selected_cell_style,
            highlight_spacing: HighlightSpacing::Always,
        };
        proof {
            let model = table_model(self.images.deep_view(), colors);
            assert(table.deep_view().rows =~= model.rows);
            assert(table.deep_view().widths =~= model.widths);
        }
        TableFrame { area, table, selected: self.position.selected }
    }

    /// Selects the row after the selected one, the first after the last;
    /// does nothing without rows.
    pub fn next_row(&mut self)
        ensures
            final(self)@ == old(self)@.next_row(),
            final(self)@.valid(),
    {
        proof {
            use_type_invariant(&*self);
        }
        if self.images.len() == 0 {
            return ;
        }
        let i: usize = match self.position.selected {
            Some(i) => {
                if i >= self.images.len() - 1 {
                    0
                } else {
                    i + 1
                }
            },
            None => 0,
        };
        proof {
            let len = self.images.len() as int;
            if let Some(k) = self.position.selected {
                if k + 1 < len {
                    lemma_small_mod((k + 1) as nat, len as nat);
                } else {
                    lemma_mod_self_0(len);
                }
            }
            assert(i * ITEM_HEIGHT <= self.images.len() * ITEM_HEIGHT) by (nonlinear_arith)
                requires
                    i < self.images.len(),
            ;
        }
        self.position = Position { selected: Some(i), scroll_offset: i * ITEM_HEIGHT };
    }

    /// Selects the row before the selected one, the last before the first;
    /// does nothing without rows.
    pub fn previous_row(&mut self)
        ensures
            final(self)@ == old(self)@.previous_row(),
            final(self)@.valid(),
    {
        proof {
            use_type_invariant(&*self);
        }
        if self.images.len() == 0 {
            return ;
        }
        let i: usize = match self.position.selected {
            Some(i) => {
                if i == 0 {
                    self.images.len() - 1
                } else {
                    i - 1
                }
            },
            None => 0,
        };
        proof {
            let len = self.images.len() as int;
            if let Some(k) = self.position.selected {
                if k == 0 {
                    lemma_small_mod((len - 1) as nat, len as nat);
                } else {
                    lemma_mod_add_multiples_vanish(k - 1, len);
                    lemma_small_mod((k - 1) as nat, len as nat);
                }
            }
            assert(i * ITEM_HEIGHT <= self.images.len() * ITEM_HEIGHT) by (nonlinear_arith)
                requires
                    i < self.images.len(),
            ;
        }
        self.position = Position { selected: Some(i), scroll_offset: i * ITEM_HEIGHT };
    }

    /// Ends the session: the browser is terminated from now on.
    pub fn quit(&mut self)
        ensures
            final(self)@ == old(self)@.quit(),
            final(self)@.terminated,
    {
        proof {
            use_type_invariant(&*self);
        }
        self.terminated = true;
    }

    /// Whether the browser has been quit.
    pub fn is_terminated(&self) -> (terminated: bool)
        ensures
            terminated == self@.terminated,
    {
        self.terminated
    }

    /// The index of the selected row, if there are rows.
    pub fn selected(&self) -> (selected: Option<usize>)
        ensures
            self@.valid(),
            match selected {
                Some(i) => self@.selected_index == Some(i as nat),
                None => self@.selected_index is None,
            },
    {
        proof {
            use_type_invariant(self);
        }
        self.position.selected
    }

    /// How far the view is scrolled: the selected row's index times the row
    /// height.
    pub fn scroll_offset(&self) -> (offset: usize)
        ensures
            self@.valid(),
            offset == self@.scroll_offset,
    {
        proof {
            use_type_invariant(self);
        }
        self.position.scroll_offset
    }

    /// How far the view can be scrolled: the scroll offset of the last row.
    pub fn scroll_content_length(&self) -> (length: usize)
        ensures
            length == self@.scroll_content_length(),
    {
        proof {
            use_type_invariant(self);
        }
        if self.images.len() == 0 {
            0
        } else {
            assert((self.images.len() - 1) * ITEM_HEIGHT <= self.images.len() * ITEM_HEIGHT)
                by (nonlinear_arith);
            (self.images.len() - 1) * ITEM_HEIGHT
        }
    }

    /// The rows.
    pub fn images(&self) -> (images: &Vec<DriverImage>)
        ensures
            images.deep_view() == self@.rows,
    {
        &self.images
    }

    /// The widths that the name column and the date column need, as they
    /// were computed when the browser was made.
    pub fn longest_item_lens(&self) -> (lens: (u16, u16))
        ensures
            lens == longest_item_lens(self@.rows),
    {
        proof {
            use_type_invariant(self);
        }
        self.longest_item_lens
    }

    /// The table's colours.
    pub fn colors(&self) -> (colors: TableColors)
        ensures
            colors == TableColors::spec_new(Palette::Blue),
    {
        proof {
            use_type_invariant(self);
        }
        self.colors
    }
}

} // verus!
