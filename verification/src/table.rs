//! The tables: which rows are shown, what stands in their cells and how the
//! cells are painted.

use vstd::prelude::*;
use comfy_table::{Cell, Table};
use crate::config::GtdConfig;
use crate::grid::{
    add_row, cell_view, cell_views, load_blank_preset, new_cell, new_table, set_header,
    table_header, table_rows, with_bg, with_fg, with_underline,
};
use crate::order::{sort_by_tasks, sorted_by_tasks};
use crate::parser::{Task, TaskView, task_views};
use crate::project::{
    ItemView, Project, ProjectListItem, build_view, generate_project_list, item_views,
    project_names,
};
use crate::text::{decimal, decimal_int, index_text, join, joined, number_text};

verus! {

/// The colours that the tables use.
#[derive(Clone, Copy, Debug, PartialEq, Eq, Structural)]
pub enum Paint {
    Reset,
    Black,
    Yellow,
    Green,
}

/// One cell of a table before it is drawn: its text and how it is painted.
#[derive(Clone, Debug, PartialEq, Eq)]
pub struct StyledCell {
    pub text: String,
    /// The colour of the text, where one is set.
    pub fg: Option<Paint>,
    /// The colour behind the text, where one is set.
    pub bg: Option<Paint>,
    pub underlined: bool,
}

/// What a cell holds, as mathematical values.
pub ghost struct CellView {
    pub text: Seq<char>,
    pub fg: Option<Paint>,
    pub bg: Option<Paint>,
    pub underlined: bool,
}

impl CellView {
    /// The same cell with the colour of its text set.
    pub open spec fn with_fg(self, paint: Paint) -> CellView {
        CellView { fg: Some(paint), ..self }
    }

    /// The same cell with the colour behind its text set.
    pub open spec fn with_bg(self, paint: Paint) -> CellView {
        CellView { bg: Some(paint), ..self }
    }

    /// The same cell, underlined.
    pub open spec fn with_underline(self) -> CellView {
        CellView { underlined: true, ..self }
    }
}

impl View for StyledCell {
    type V = CellView;

    open spec fn view(&self) -> CellView {
        CellView { text: self.text@, fg: self.fg, bg: self.bg, underlined: self.underlined }
    }
}

/// The views of a row of cells.
pub open spec fn row_view(row: Seq<StyledCell>) -> Seq<CellView> {
    Seq::new(row.len(), |i: int| row[i]@)
}

/// The views of a sequence of rows.
pub open spec fn rows_view(rows: Seq<Vec<StyledCell>>) -> Seq<Seq<CellView>> {
    Seq::new(rows.len(), |i: int| row_view(rows[i]@))
}

/// A cell with no paint on it.
pub open spec fn plain(text: Seq<char>) -> CellView {
    CellView { text, fg: None, bg: None, underlined: false }
}

/// A heading: underlined, with no colour set.
pub open spec fn title(text: Seq<char>) -> CellView {
    CellView { text, fg: None, bg: None, underlined: true }
}

/// A row of headings.
pub open spec fn titles(texts: Seq<Seq<char>>) -> Seq<CellView> {
    Seq::new(texts.len(), |i: int| title(texts[i]))
}

/// The colour behind a row: with colour on, every other row is black,
/// beginning with the first. It depends on the row's position alone.
pub open spec fn stripe(color: bool, position: int) -> Paint {
    if color && position % 2 == 0 {
        Paint::Black
    } else {
        Paint::Reset
    }
}

/// The colour of a project by the number of its tasks: yellow where it has
/// none, green where it has some.
pub open spec fn project_paint(task_count: int) -> Paint {
    if task_count == 0 {
        Paint::Yellow
    } else {
        Paint::Green
    }
}

/// The colour of a project's text: by its count with colour on, unset
/// otherwise.
pub open spec fn count_paint(color: bool, task_count: int) -> Paint {
    if color {
        project_paint(task_count)
    } else {
        Paint::Reset
    }
}

/// Whether the overview shows a line: the short display shows only the
/// projects without tasks.
pub open spec fn is_shown(short: bool, item: ItemView) -> bool {
    !short || item.tasks == 0
}

/// The row of the overview for the line `item`, which stands at `position`
/// among the sorted lines: its ID, its name and its count.
pub open spec fn list_row(color: bool, position: int, item: ItemView) -> Seq<CellView> {
    let fg = Some(count_paint(color, item.tasks));
    let bg = Some(stripe(color, position));
    seq![
        CellView { text: decimal(item.index as nat), fg, bg, underlined: false },
        CellView { text: item.name, fg, bg, underlined: false },
        CellView { text: decimal_int(item.tasks), fg, bg, underlined: false },
    ]
}

/// The rows of the overview for the sorted lines `sorted`: one row for each
/// line that is shown, in the order of the lines.
pub open spec fn shown_rows(color: bool, short: bool, sorted: Seq<ItemView>) -> Seq<
    Seq<CellView>,
>
    decreases sorted.len(),
{
    if sorted.len() == 0 {
        Seq::empty()
    } else {
        let before = shown_rows(color, short, sorted.drop_last());
        if is_shown(short, sorted.last()) {
            before.push(list_row(color, sorted.len() - 1, sorted.last()))
        } else {
            before
        }
    }
}

/// The positions of the lines without tasks, ascending.
pub open spec fn idle_positions(sorted: Seq<ItemView>) -> Seq<int>
    decreases sorted.len(),
{
    if sorted.len() == 0 {
        Seq::empty()
    } else if sorted.last().tasks == 0 {
        idle_positions(sorted.drop_last()).push(sorted.len() - 1)
    } else {
        idle_positions(sorted.drop_last())
    }
}

/// The full display is the complete overview: one row for each line, at the
/// line's position.
pub proof fn lemma_full_display_is_complete(color: bool, sorted: Seq<ItemView>)
    ensures
        shown_rows(color, false, sorted).len() == sorted.len(),
        forall|i: int|
            0 <= i < sorted.len() ==> #[trigger] shown_rows(color, false, sorted)[i] == list_row(
                color,
                i,
                sorted[i],
            ),
    decreases sorted.len(),
{
    if sorted.len() > 0 {
        lemma_full_display_is_complete(color, sorted.drop_last());
    }
}

proof fn lemma_idle_positions(sorted: Seq<ItemView>)
    ensures
        forall|k: int|
            0 <= k < idle_positions(sorted).len() ==> 0 <= #[trigger] idle_positions(sorted)[k]
                < sorted.len() && sorted[idle_positions(sorted)[k]].tasks == 0,
        forall|k: int, l: int|
            0 <= k < l < idle_positions(sorted).len() ==> idle_positions(sorted)[k]
                < idle_positions(sorted)[l],
        forall|i: int|
            0 <= i < sorted.len() && sorted[i].tasks == 0 ==> idle_positions(sorted).contains(i),
    decreases sorted.len(),
{
    if sorted.len() > 0 {
        let rest = sorted.drop_last();
        lemma_idle_positions(rest);
        let here = idle_positions(sorted);
        let there = idle_positions(rest);
        assert forall|i: int| 0 <= i < sorted.len() && sorted[i].tasks == 0 implies here.contains(
            i,
        ) by {
            if i < sorted.len() - 1 {
                assert(there.contains(i));
                let k = choose|k: int| 0 <= k < there.len() && there[k] == i;
                assert(here[k] == i);
            } else {
                assert(here[here.len() - 1] == i);
            }
        }
    }
}

/// The short display is the full display cut down to the projects without
/// tasks: its rows are the rows of the full display at the positions of
/// those projects, in the same order, and no others. Those positions are
/// the positions of all lines whose count is zero, ascending.
pub proof fn lemma_short_display_is_restriction(color: bool, sorted: Seq<ItemView>)
    ensures
        shown_rows(color, true, sorted).len() == idle_positions(sorted).len(),
        forall|k: int|
            0 <= k < idle_positions(sorted).len() ==> #[trigger] shown_rows(
                color,
                true,
                sorted,
            )[k] == shown_rows(color, false, sorted)[idle_positions(sorted)[k]],
        forall|k: int|
            0 <= k < idle_positions(sorted).len() ==> 0 <= #[trigger] idle_positions(sorted)[k]
                < sorted.len() && sorted[idle_positions(sorted)[k]].tasks == 0,
        forall|k: int, l: int|
            0 <= k < l < idle_positions(sorted).len() ==> idle_positions(sorted)[k]
                < idle_positions(sorted)[l],
        forall|i: int|
            0 <= i < sorted.len() && sorted[i].tasks == 0 ==> idle_positions(sorted).contains(i),
    decreases sorted.len(),
{
    lemma_full_display_is_complete(color, sorted);
    lemma_idle_positions(sorted);
    if sorted.len() > 0 {
        let rest = sorted.drop_last();
        lemma_short_display_is_restriction(color, rest);
        lemma_full_display_is_complete(color, rest);
        lemma_idle_positions(rest);
    }
}

/// Colour changes no row's text: with colour on and off the display has the
/// same rows, and each cell reads the same.
pub proof fn lemma_colour_is_cosmetic(short: bool, sorted: Seq<ItemView>)
    ensures
        shown_rows(true, short, sorted).len() == shown_rows(false, short, sorted).len(),
        forall|k: int, c: int|
            0 <= k < shown_rows(true, short, sorted).len() && 0 <= c < 3 ==> shown_rows(
                true,
                short,
                sorted,
            )[k].len() == 3 && shown_rows(false, short, sorted)[k].len() == 3 && (
            #[trigger] shown_rows(true, short, sorted)[k][c]).text == shown_rows(
                false,
                short,
                sorted,
            )[k][c].text,
    decreases sorted.len(),
{
    if sorted.len() > 0 {
        lemma_colour_is_cosmetic(short, sorted.drop_last());
    }
}

/// The colour of a project by the number of its tasks.
pub fn determine_proj_color(task_count: usize) -> (paint: Paint)
    ensures
        paint == project_paint(task_count as int),
{
    if task_count == 0 {
        Paint::Yellow
    } else {
        Paint::Green
    }
}

/// The colour behind the row at `position`.
pub fn row_background(color: bool, position: usize) -> (paint: Paint)
    ensures
        paint == stripe(color, position as int),
{
    if color && position % 2 == 0 {
        Paint::Black
    } else {
        Paint::Reset
    }
}

fn text_color(color: bool, tasks: i32) -> (paint: Paint)
    ensures
        paint == count_paint(color, tasks as int),
{
    if !color {
        Paint::Reset
    } else if tasks >= 0 {
        determine_proj_color(tasks as usize)
    } else {
        Paint::Green
    }
}

/// The rows of the overview for lines that are already sorted.
pub fn list_rows(cfg: &GtdConfig, sorted: &[ProjectListItem]) -> (rows: Vec<Vec<StyledCell>>)
    ensures
        rows_view(rows@) == shown_rows(cfg.color, cfg.short, item_views(sorted@)),
{
    let mut rows: Vec<Vec<StyledCell>> = Vec::new();
    let mut position: usize = 0;
    let ghost lines = item_views(sorted@);
    while position < sorted.len()
        invariant
            position <= sorted.len(),
            lines == item_views(sorted@),
            rows_view(rows@) == shown_rows(cfg.color, cfg.short, lines.subrange(0, position as int)),
        decreases sorted.len() - position,
    {
        let item = &sorted[position];
        proof {
            let next = lines.subrange(0, position + 1);
            assert(next.drop_last() =~= lines.subrange(0, position as int));
        }
        if !cfg.short || item.tasks == 0 {
            let fg = Some(text_color(cfg.color, item.tasks));
            let bg = Some(row_background(cfg.color, position));
            let mut row: Vec<StyledCell> = Vec::new();
            row.push(StyledCell { text: index_text(item.index), fg, bg, underlined: false });
            row.push(StyledCell { text: item.name.clone(), fg, bg, underlined: false });
            row.push(StyledCell { text: number_text(item.tasks), fg, bg, underlined: false });
            assert(row_view(row@) =~= list_row(cfg.color, position as int, item@));
            rows.push(row);
        }
        position += 1;
    }
    assert(lines.subrange(0, position as int) =~= lines);
    rows
}

fn to_cell(styled: &StyledCell) -> (cell: Cell)
    ensures
        cell_view(cell) == styled@,
{
    let mut cell = new_cell(styled.text.as_str());
    if let Some(paint) = styled.fg {
        cell = with_fg(cell, paint);
    }
    if let Some(paint) = styled.bg {
        cell = with_bg(cell, paint);
    }
    if styled.underlined {
        cell = with_underline(cell);
    }
    cell
}

fn to_cells(row: &Vec<StyledCell>) -> (cells: Vec<Cell>)
    ensures
        cell_views(cells@) == row_view(row@),
{
    let mut cells: Vec<Cell> = Vec::new();
    let mut i: usize = 0;
    while i < row.len()
        invariant
            i <= row.len(),
            cells@.len() == i,
            forall|k: int| 0 <= k < i ==> cell_view(#[trigger] cells@[k]) == row@[k]@,
        decreases row.len() - i,
    {
        cells.push(to_cell(&row[i]));
        i += 1;
    }
    cells
}

/// The texts of a sequence of string slices.
pub open spec fn slice_texts(words: Seq<&str>) -> Seq<Seq<char>> {
    Seq::new(words.len(), |i: int| words[i]@)
}

/// An empty table without borders under the given headings, each underlined.
pub fn create_table(headers: &[&str]) -> (table: Table)
    ensures
        table_header(table) == Some(titles(slice_texts(headers@))),
        table_rows(table) == Seq::<Seq<CellView>>::empty(),
{
    let mut table = new_table();
    load_blank_preset(&mut table);
    let mut cells: Vec<Cell> = Vec::new();
    let mut i: usize = 0;
    while i < headers.len()
        invariant
            i <= headers.len(),
            cells@.len() == i,
            forall|k: int| 0 <= k < i ==> cell_view(#[trigger] cells@[k]) == title(headers@[k]@),
        decreases headers.len() - i,
    {
        cells.push(with_underline(new_cell(headers[i])));
        i += 1;
    }
    set_header(&mut table, cells);
    table
}

fn add_rows(table: &mut Table, rows: &Vec<Vec<StyledCell>>)
    ensures
        table_header(*final(table)) == table_header(*old(table)),
        table_rows(*final(table)) == table_rows(*old(table)) + rows_view(rows@),
{
    let mut i: usize = 0;
    while i < rows.len()
        invariant
            i <= rows.len(),
            table_header(*table) == table_header(*old(table)),
            table_rows(*table) == table_rows(*old(table)) + rows_view(rows@).subrange(0, i as int),
        decreases rows.len() - i,
    {
        let cells = to_cells(&rows[i]);
        add_row(table, cells);
        i += 1;
    }
}

/// The headings of the overview.
pub open spec fn list_headings() -> Seq<Seq<char>> {
    seq!["ID"@, "Name"@, "Tasks"@]
}

/// Lays out an overview as a table: under the headings ID, Name and Tasks,
/// its lines sorted by ascending count, equal counts in the order given; in
/// the short display only the projects without tasks.
pub fn render_list(cfg: &GtdConfig, items: Vec<ProjectListItem>) -> (table: Table)
    ensures
        table_header(table) == Some(titles(list_headings())),
        table_rows(table) == shown_rows(cfg.color, cfg.short, sorted_by_tasks(item_views(items@))),
{
    let headers: [&str; 3] = ["ID", "Name", "Tasks"];
    let mut table = create_table(headers.as_slice());
    let mut output = items;
    sort_by_tasks(&mut output);
    let rows = list_rows(cfg, output.as_slice());
    add_rows(&mut table, &rows);
    table
}

/// The overview of the catalogue as a table: one line per project with the
/// number of its open tasks, laid out as [`render_list`] does.
pub fn project_list_table(cfg: &GtdConfig, tasks: &[Task], projects: &[Project]) -> (table: Table)
    requires
        tasks@.len() <= i32::MAX,
    ensures
        table_header(table) == Some(titles(list_headings())),
        table_rows(table) == shown_rows(
            cfg.color,
            cfg.short,
            sorted_by_tasks(build_view(task_views(tasks@), project_names(projects@))),
        ),
{
    render_list(cfg, generate_project_list(tasks, projects))
}

/// The tables that show one project.
pub struct ProjectDetails {
    /// The project itself.
    pub summary: Table,
    /// Its tasks, where it has any.
    pub tasks: Option<Table>,
}

/// The headings of a project's own table.
pub open spec fn summary_headings() -> Seq<Seq<char>> {
    seq!["Name"@, "Value"@]
}

/// The headings of the table of tasks.
pub open spec fn task_headings() -> Seq<Seq<char>> {
    seq!["ID"@, "Entry"@, "Description"@, "Tags"@]
}

/// The one row of a project's own table: the word Name and the project's
/// name, coloured by the number of tasks shown with it.
pub open spec fn summary_row(color: bool, name: Seq<char>, task_count: int) -> Seq<CellView> {
    seq![
        plain("Name"@),
        CellView { text: name, fg: Some(count_paint(color, task_count)), bg: None, underlined: false },
    ]
}

/// The tags of a task in one text, a comma and a blank between each two.
pub open spec fn tag_list(task: TaskView) -> Seq<char> {
    match task.tags {
        Some(tags) => joined(tags, ", "@),
        None => Seq::empty(),
    }
}

/// The row of the task at `position`: its number, entry date, description
/// and tags.
pub open spec fn task_row(color: bool, position: int, task: TaskView) -> Seq<CellView> {
    let bg = Some(stripe(color, position));
    seq![
        CellView { text: decimal_int(task.id), fg: None, bg, underlined: false },
        CellView { text: task.entry, fg: None, bg, underlined: false },
        CellView { text: task.description, fg: None, bg, underlined: false },
        CellView { text: tag_list(task), fg: None, bg, underlined: false },
    ]
}

/// One row for each task, in the tasks' order.
pub open spec fn task_rows(color: bool, tasks: Seq<TaskView>) -> Seq<Seq<CellView>> {
    Seq::new(tasks.len(), |i: int| task_row(color, i, tasks[i]))
}

/// The rows of the table of tasks.
pub fn task_list_rows(cfg: &GtdConfig, tasks: &[Task]) -> (rows: Vec<Vec<StyledCell>>)
    ensures
        rows_view(rows@) == task_rows(cfg.color, task_views(tasks@)),
{
    let mut rows: Vec<Vec<StyledCell>> = Vec::new();
    let mut position: usize = 0;
    while position < tasks.len()
        invariant
            position <= tasks.len(),
            rows@.len() == position,
            forall|k: int|
                0 <= k < position ==> row_view(#[trigger] rows@[k]@) == task_row(
                    cfg.color,
                    k,
                    tasks@[k]@,
                ),
        decreases tasks.len() - position,
    {
        let item = &tasks[position];
        let bg = Some(row_background(cfg.color, position));
        let tags = match &item.tags {
            Some(tags) => join(tags, ", "),
            None => String::new(),
        };
        let mut row: Vec<StyledCell> = Vec::new();
        row.push(StyledCell { text: number_text(item.id), fg: None, bg, underlined: false });
        row.push(StyledCell { text: item.entry.clone(), fg: None, bg, underlined: false });
        row.push(StyledCell { text: item.description.clone(), fg: None, bg, underlined: false });
        row.push(StyledCell { text: tags, fg: None, bg, underlined: false });
        rows.push(row);
        position += 1;
    }
    rows
}

/// The tasks as a table: under the headings ID, Entry, Description and Tags,
/// one row for each task.
pub fn task_list_table(cfg: &GtdConfig, tasks: &[Task]) -> (table: Table)
    ensures
        table_header(table) == Some(titles(task_headings())),
        table_rows(table) == task_rows(cfg.color, task_views(tasks@)),
{
    let headers: [&str; 4] = ["ID", "Entry", "Description", "Tags"];
    let mut table = create_table(headers.as_slice());
    let rows = task_list_rows(cfg, tasks);
    add_rows(&mut table, &rows);
    table
}

/// One project in detail: a table with its name, and below it the table of
/// the tasks handed in, which is left out where there are none.
pub fn project_details_table(cfg: &GtdConfig, project: &Project, tasks: &[Task]) -> (details:
    ProjectDetails)
    ensures
        table_header(details.summary) == Some(titles(summary_headings())),
        table_rows(details.summary) == seq![summary_row(cfg.color, project@, tasks@.len() as int)],
        details.tasks is Some <==> tasks@.len() > 0,
        details.tasks is Some ==> table_header(details.tasks->0) == Some(titles(task_headings()))
            && table_rows(details.tasks->0) == task_rows(cfg.color, task_views(tasks@)),
{
    let headers: [&str; 2] = ["Name", "Value"];
    let mut summary = create_table(headers.as_slice());
    let color = if cfg.color {
        determine_proj_color(tasks.len())
    } else {
        Paint::Reset
    };
    let mut row: Vec<Cell> = Vec::new();
    row.push(new_cell("Name"));
    row.push(with_fg(new_cell(project.name.as_str()), color));
    assert(cell_views(row@) =~= summary_row(cfg.color, project@, tasks@.len() as int));
    add_row(&mut summary, row);
    let task_table = if tasks.len() > 0 {
        Some(task_list_table(cfg, tasks))
    } else {
        None
    };
    ProjectDetails { summary, tasks: task_table }
}

} // verus!
