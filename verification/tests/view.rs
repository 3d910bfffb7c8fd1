use projwarrior::order::sort_by_tasks;
use projwarrior::parser::{get_task_list, Task};
use projwarrior::project::{generate_project_list, get_projects, task_count, Project, ProjectListItem};

fn task(id: i32, project: Option<&str>, status: &str) -> Task {
    Task {
        id,
        brainpower: None,
        priority: Some("H".to_string()),
        project: project.map(|p| p.to_string()),
        description: format!("task {}", id),
        end: None,
        entry: "20240101T000000Z".to_string(),
        modified: "20240102T000000Z".to_string(),
        status: status.to_string(),
        uuid: format!("00000000-0000-0000-0000-{:012}", id),
        tags: None,
    }
}

fn catalogue(names: &[&str]) -> Vec<Project> {
    names.iter().map(|n| Project { name: n.to_string() }).collect()
}

fn line(index: usize, name: &str, tasks: i32) -> ProjectListItem {
    ProjectListItem { index, name: name.to_string(), tasks }
}

#[test]
fn view_counts_open_tasks_per_project() {
    let tasks = vec![
        task(1, Some("A"), "pending"),
        task(2, Some("A"), "completed"),
        task(3, Some("B"), "waiting"),
    ];
    let projects = catalogue(&["A", "B", "C"]);
    let view = generate_project_list(&tasks, &projects);
    assert_eq!(view, vec![line(0, "A", 1), line(1, "B", 1), line(2, "C", 0)]);
}

#[test]
fn view_keeps_length_and_order_of_catalogue() {
    let tasks = vec![
        task(1, Some("zeta"), "pending"),
        task(2, Some("alpha"), "pending"),
        task(3, Some("zeta"), "waiting"),
        task(4, Some("zeta"), "pending"),
    ];
    let projects = catalogue(&["zeta", "mid", "alpha", "zeta"]);
    let view = generate_project_list(&tasks, &projects);
    assert_eq!(view.len(), projects.len());
    for (i, item) in view.iter().enumerate() {
        assert_eq!(item.index, i);
        assert_eq!(item.name, projects[i].name);
    }
    assert_eq!(view[0].tasks, 3);
    assert_eq!(view[1].tasks, 0);
    assert_eq!(view[2].tasks, 1);
    assert_eq!(view[3].tasks, 3);
}

#[test]
fn view_of_empty_catalogue_is_empty() {
    let tasks = vec![task(1, Some("A"), "pending")];
    assert_eq!(generate_project_list(&tasks, &[]), vec![]);
}

#[test]
fn view_without_tasks_counts_zero() {
    let view = generate_project_list(&[], &catalogue(&["A"]));
    assert_eq!(view, vec![line(0, "A", 0)]);
}

#[test]
fn names_match_exactly() {
    let tasks = vec![
        task(1, Some("Home"), "pending"),
        task(2, Some("home"), "pending"),
        task(3, Some("Home.garden"), "pending"),
        task(4, None, "pending"),
    ];
    assert_eq!(task_count(&tasks, &"Home".to_string()), 1);
    assert_eq!(task_count(&tasks, &"home".to_string()), 1);
    assert_eq!(task_count(&tasks, &"".to_string()), 0);
}

#[test]
fn task_without_project_is_counted_nowhere() {
    let tasks = vec![task(1, None, "pending"), task(2, None, "waiting")];
    let view = generate_project_list(&tasks, &catalogue(&["", "A"]));
    assert_eq!(view, vec![line(0, "", 0), line(1, "A", 0)]);
}

#[test]
fn task_list_keeps_open_tasks_with_a_project() {
    let exported = vec![
        task(1, Some("A"), "pending"),
        task(2, None, "pending"),
        task(3, Some("A"), "completed"),
        task(4, Some("B"), "waiting"),
        task(5, Some("B"), "deleted"),
        task(6, Some("C"), "Pending"),
    ];
    let kept = get_task_list(&exported);
    assert_eq!(kept, vec![task(1, Some("A"), "pending"), task(4, Some("B"), "waiting")]);
}

#[test]
fn task_list_of_nothing_is_empty() {
    assert_eq!(get_task_list(&[]), vec![]);
}

#[test]
fn task_flags() {
    assert!(task(1, Some("A"), "pending").is_open());
    assert!(task(1, None, "waiting").is_open());
    assert!(!task(1, None, "waiting").is_actionable());
    assert!(!task(1, Some("A"), "completed").is_open());
    assert!(task(1, Some("A"), "waiting").is_actionable());
}

#[test]
fn task_clone_is_equal() {
    let mut t = task(9, Some("A"), "pending");
    t.tags = Some(vec!["x".to_string(), "y".to_string()]);
    t.brainpower = Some("high".to_string());
    t.end = Some("20240201T000000Z".to_string());
    assert_eq!(t.clone(), t);
    let bare = task(10, None, "waiting");
    assert_eq!(bare.clone(), bare);
}

#[test]
fn unreadable_catalogue_is_empty() {
    assert_eq!(get_projects(None), vec![]);
    assert_eq!(get_projects(Some(catalogue(&["A", "B"]))), catalogue(&["A", "B"]));
}

#[test]
fn sort_is_ascending_and_stable() {
    let mut items = vec![
        line(0, "a", 2),
        line(1, "b", 0),
        line(2, "c", 2),
        line(3, "d", 1),
        line(4, "e", 0),
        line(5, "f", 2),
    ];
    sort_by_tasks(&mut items);
    assert_eq!(
        items,
        vec![
            line(1, "b", 0),
            line(4, "e", 0),
            line(3, "d", 1),
            line(0, "a", 2),
            line(2, "c", 2),
            line(5, "f", 2),
        ]
    );
}

#[test]
fn sort_agrees_with_std_stable_sort() {
    let mut items: Vec<ProjectListItem> = (0..40usize)
        .map(|i| line(i, &format!("p{}", i), ((i * 7 + 3) % 5) as i32 - 1))
        .collect();
    let mut expected = items.clone();
    expected.sort_by(|a, b| a.tasks.cmp(&b.tasks));
    sort_by_tasks(&mut items);
    assert_eq!(items, expected);
}

#[test]
fn sort_of_empty_and_single() {
    let mut none: Vec<ProjectListItem> = vec![];
    sort_by_tasks(&mut none);
    assert_eq!(none, vec![]);
    let mut one = vec![line(0, "a", 3)];
    sort_by_tasks(&mut one);
    assert_eq!(one, vec![line(0, "a", 3)]);
}
