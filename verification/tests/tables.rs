use comfy_table::presets::NOTHING;
use comfy_table::{Attribute, Cell, Color, Table};
use projwarrior::config::GtdConfig;
use projwarrior::parser::Task;
use projwarrior::project::{Project, ProjectListItem};
use projwarrior::table::{
    create_table, determine_proj_color, list_rows, project_details_table, project_list_table,
    render_list, row_background, task_list_rows, task_list_table, Paint, StyledCell,
};

fn settings(short: bool, color: bool) -> GtdConfig {
    GtdConfig {
        storage_path: "projects.data".to_string(),
        task_path: "task".to_string(),
        short,
        color,
    }
}

fn open_task(id: i32, project: &str, tags: Option<Vec<&str>>) -> Task {
    Task {
        id,
        brainpower: None,
        priority: None,
        project: Some(project.to_string()),
        description: format!("do {}", id),
        end: None,
        entry: format!("2024010{}T000000Z", id),
        modified: format!("2024010{}T000000Z", id),
        status: "pending".to_string(),
        uuid: format!("00000000-0000-0000-0000-{:012}", id),
        tags: tags.map(|t| t.iter().map(|s| s.to_string()).collect()),
    }
}

fn named(names: &[&str]) -> Vec<Project> {
    names.iter().map(|n| Project { name: n.to_string() }).collect()
}

fn item(index: usize, name: &str, tasks: i32) -> ProjectListItem {
    ProjectListItem { index, name: name.to_string(), tasks }
}

fn painted(text: &str, fg: Paint, bg: Paint) -> StyledCell {
    StyledCell { text: text.to_string(), fg: Some(fg), bg: Some(bg), underlined: false }
}

fn striped(text: &str, bg: Paint) -> StyledCell {
    StyledCell { text: text.to_string(), fg: None, bg: Some(bg), underlined: false }
}

fn blank(headers: &[&str], underline: bool) -> Table {
    let mut table = Table::new();
    table.load_preset(NOTHING);
    let cells: Vec<Cell> = headers
        .iter()
        .map(|h| if underline { Cell::new(h).add_attribute(Attribute::Underlined) } else { Cell::new(h) })
        .collect();
    table.set_header(cells);
    table
}

fn drawn(table: &Table) -> String {
    let mut copy = table.clone();
    copy.force_no_tty().enforce_styling();
    copy.to_string()
}

fn contents(table: &Table) -> Vec<Vec<String>> {
    table.row_iter().map(|row| row.cell_iter().map(|c| c.content()).collect()).collect()
}

fn sample_tasks() -> Vec<Task> {
    vec![
        open_task(1, "garden", None),
        open_task(2, "garden", Some(vec!["home", "spring"])),
        open_task(3, "taxes", Some(vec![])),
    ]
}

#[test]
fn colours_by_count() {
    assert_eq!(determine_proj_color(0), Paint::Yellow);
    assert_eq!(determine_proj_color(1), Paint::Green);
    assert_eq!(determine_proj_color(usize::MAX), Paint::Green);
}

#[test]
fn stripes_by_position() {
    assert_eq!(row_background(true, 0), Paint::Black);
    assert_eq!(row_background(true, 1), Paint::Reset);
    assert_eq!(row_background(true, 2), Paint::Black);
    assert_eq!(row_background(false, 0), Paint::Reset);
    assert_eq!(row_background(false, 1), Paint::Reset);
}

#[test]
fn full_display_shows_every_line() {
    let sorted = vec![item(1, "idle", 0), item(0, "busy", 2), item(2, "busier", 3)];
    let rows = list_rows(&settings(false, true), &sorted);
    assert_eq!(
        rows,
        vec![
            vec![
                painted("1", Paint::Yellow, Paint::Black),
                painted("idle", Paint::Yellow, Paint::Black),
                painted("0", Paint::Yellow, Paint::Black),
            ],
            vec![
                painted("0", Paint::Green, Paint::Reset),
                painted("busy", Paint::Green, Paint::Reset),
                painted("2", Paint::Green, Paint::Reset),
            ],
            vec![
                painted("2", Paint::Green, Paint::Black),
                painted("busier", Paint::Green, Paint::Black),
                painted("3", Paint::Green, Paint::Black),
            ],
        ]
    );
}

#[test]
fn short_display_shows_only_idle_projects() {
    let sorted = vec![item(3, "a", 0), item(1, "b", 0), item(0, "c", 1), item(2, "d", 4)];
    let full = list_rows(&settings(false, true), &sorted);
    let short = list_rows(&settings(true, true), &sorted);
    assert_eq!(full.len(), 4);
    assert_eq!(short, vec![full[0].clone(), full[1].clone()]);
}

#[test]
fn short_display_keeps_the_stripe_of_the_position() {
    let lines = vec![item(0, "busy", 1), item(1, "idle", 0)];
    let short = list_rows(&settings(true, true), &lines);
    assert_eq!(
        short,
        vec![vec![
            painted("1", Paint::Yellow, Paint::Reset),
            painted("idle", Paint::Yellow, Paint::Reset),
            painted("0", Paint::Yellow, Paint::Reset),
        ]]
    );
}

#[test]
fn colour_changes_no_text() {
    let sorted = vec![item(1, "idle", 0), item(0, "busy", 2)];
    for short in [false, true] {
        let with = list_rows(&settings(short, true), &sorted);
        let without = list_rows(&settings(short, false), &sorted);
        assert_eq!(with.len(), without.len());
        for (a, b) in with.iter().zip(without.iter()) {
            let left: Vec<&String> = a.iter().map(|c| &c.text).collect();
            let right: Vec<&String> = b.iter().map(|c| &c.text).collect();
            assert_eq!(left, right);
        }
        for row in &without {
            for cell in row {
                assert_eq!(cell.fg, Some(Paint::Reset));
                assert_eq!(cell.bg, Some(Paint::Reset));
            }
        }
    }
}

#[test]
fn negative_count_is_not_idle() {
    let rows = list_rows(&settings(false, true), &[item(0, "odd", -1)]);
    assert_eq!(rows[0][2], painted("-1", Paint::Green, Paint::Black));
    assert!(list_rows(&settings(true, true), &[item(0, "odd", -1)]).is_empty());
}

#[test]
fn empty_overview_has_no_rows() {
    assert!(list_rows(&settings(false, false), &[]).is_empty());
    let table = project_list_table(&settings(false, false), &[], &[]);
    assert_eq!(table.row_count(), 0);
    assert_eq!(drawn(&table), drawn(&blank(&["ID", "Name", "Tasks"], true)));
}

#[test]
fn new_table_has_underlined_headings() {
    let table = create_table(&["One", "Two"]);
    assert_eq!(table.row_count(), 0);
    let header: Vec<String> = table.header().unwrap().cell_iter().map(|c| c.content()).collect();
    assert_eq!(header, vec!["One", "Two"]);
    assert_eq!(drawn(&table), drawn(&blank(&["One", "Two"], true)));
    assert_ne!(drawn(&table), drawn(&blank(&["One", "Two"], false)));
    let mut bordered = Table::new();
    bordered.set_header(vec![
        Cell::new("One").add_attribute(Attribute::Underlined),
        Cell::new("Two").add_attribute(Attribute::Underlined),
    ]);
    assert_ne!(drawn(&table), drawn(&bordered));
}

#[test]
fn overview_table_is_sorted_and_painted() {
    let tasks = sample_tasks();
    let projects = named(&["garden", "idle", "taxes", "later"]);
    let table = project_list_table(&settings(false, true), &tasks, &projects);
    assert_eq!(
        contents(&table),
        vec![
            vec!["1", "idle", "0"],
            vec!["3", "later", "0"],
            vec!["2", "taxes", "1"],
            vec!["0", "garden", "2"],
        ]
    );
    let mut expected = blank(&["ID", "Name", "Tasks"], true);
    let rows = [
        ("1", "idle", "0", Color::Yellow, Color::Black),
        ("3", "later", "0", Color::Yellow, Color::Reset),
        ("2", "taxes", "1", Color::Green, Color::Black),
        ("0", "garden", "2", Color::Green, Color::Reset),
    ];
    for (id, name, count, fg, bg) in rows {
        expected.add_row(vec![
            Cell::new(id).fg(fg).bg(bg),
            Cell::new(name).fg(fg).bg(bg),
            Cell::new(count).fg(fg).bg(bg),
        ]);
    }
    assert_eq!(drawn(&table), drawn(&expected));
    let plain = project_list_table(&settings(false, false), &tasks, &projects);
    assert_eq!(contents(&plain), contents(&table));
    assert_ne!(drawn(&plain), drawn(&table));
}

#[test]
fn overview_table_in_short_display() {
    let tasks = sample_tasks();
    let projects = named(&["garden", "idle", "taxes", "later"]);
    let table = project_list_table(&settings(true, false), &tasks, &projects);
    assert_eq!(contents(&table), vec![vec!["1", "idle", "0"], vec!["3", "later", "0"]]);
    let mut expected = blank(&["ID", "Name", "Tasks"], true);
    for (id, name) in [("1", "idle"), ("3", "later")] {
        expected.add_row(vec![
            Cell::new(id).fg(Color::Reset).bg(Color::Reset),
            Cell::new(name).fg(Color::Reset).bg(Color::Reset),
            Cell::new("0").fg(Color::Reset).bg(Color::Reset),
        ]);
    }
    assert_eq!(drawn(&table), drawn(&expected));
}

#[test]
fn task_rows_hold_number_entry_description_tags() {
    let tasks = sample_tasks();
    let rows = task_list_rows(&settings(false, true), &tasks);
    assert_eq!(
        rows,
        vec![
            vec![
                striped("1", Paint::Black),
                striped("20240101T000000Z", Paint::Black),
                striped("do 1", Paint::Black),
                striped("", Paint::Black),
            ],
            vec![
                striped("2", Paint::Reset),
                striped("20240102T000000Z", Paint::Reset),
                striped("do 2", Paint::Reset),
                striped("home, spring", Paint::Reset),
            ],
            vec![
                striped("3", Paint::Black),
                striped("20240103T000000Z", Paint::Black),
                striped("do 3", Paint::Black),
                striped("", Paint::Black),
            ],
        ]
    );
}

#[test]
fn task_table_matches_renderer() {
    let tasks = sample_tasks();
    let table = task_list_table(&settings(false, true), &tasks[..2]);
    let mut expected = blank(&["ID", "Entry", "Description", "Tags"], true);
    expected.add_row(vec![
        Cell::new("1").bg(Color::Black),
        Cell::new("20240101T000000Z").bg(Color::Black),
        Cell::new("do 1").bg(Color::Black),
        Cell::new("").bg(Color::Black),
    ]);
    expected.add_row(vec![
        Cell::new("2").bg(Color::Reset),
        Cell::new("20240102T000000Z").bg(Color::Reset),
        Cell::new("do 2").bg(Color::Reset),
        Cell::new("home, spring").bg(Color::Reset),
    ]);
    assert_eq!(drawn(&table), drawn(&expected));
    let plain = task_list_table(&settings(false, false), &tasks[..2]);
    assert_ne!(drawn(&table), drawn(&plain));
}

#[test]
fn details_of_a_project_with_tasks() {
    let tasks = sample_tasks();
    let project = Project { name: "garden".to_string() };
    let details = project_details_table(&settings(false, true), &project, &tasks[..2]);
    assert_eq!(contents(&details.summary), vec![vec!["Name", "garden"]]);
    let mut expected = blank(&["Name", "Value"], true);
    expected.add_row(vec![Cell::new("Name"), Cell::new("garden").fg(Color::Green)]);
    assert_eq!(drawn(&details.summary), drawn(&expected));
    let listed = details.tasks.expect("a project with tasks has a table of them");
    assert_eq!(
        contents(&listed),
        vec![
            vec!["1", "20240101T000000Z", "do 1", ""],
            vec!["2", "20240102T000000Z", "do 2", "home, spring"],
        ]
    );
}

#[test]
fn details_of_a_project_without_tasks() {
    let project = Project { name: "idle".to_string() };
    let details = project_details_table(&settings(false, true), &project, &[]);
    assert!(details.tasks.is_none());
    let mut expected = blank(&["Name", "Value"], true);
    expected.add_row(vec![Cell::new("Name"), Cell::new("idle").fg(Color::Yellow)]);
    assert_eq!(drawn(&details.summary), drawn(&expected));
    let plain = project_details_table(&settings(false, false), &project, &[]);
    let mut unpainted = blank(&["Name", "Value"], true);
    unpainted.add_row(vec![Cell::new("Name"), Cell::new("idle").fg(Color::Reset)]);
    assert_eq!(drawn(&plain.summary), drawn(&unpainted));
    assert_ne!(drawn(&plain.summary), drawn(&details.summary));
}

#[test]
fn rendered_list_keeps_ties_in_given_order() {
    let items = vec![item(0, "c", 1), item(1, "b", 0), item(2, "a", 1), item(3, "d", 0)];
    let table = render_list(&settings(false, false), items.clone());
    assert_eq!(
        contents(&table),
        vec![
            vec!["1", "b", "0"],
            vec!["3", "d", "0"],
            vec!["0", "c", "1"],
            vec!["2", "a", "1"],
        ]
    );
    let short = render_list(&settings(true, false), items);
    assert_eq!(contents(&short), vec![vec!["1", "b", "0"], vec!["3", "d", "0"]]);
}
