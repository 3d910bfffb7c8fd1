//! The project catalogue and its reconciliation with the tracker's tasks.

use vstd::prelude::*;
use crate::parser::{Task, TaskView, actionable, task_views};
use crate::select::lemma_filter_push;

verus! {

/// A named group of tasks. Its place in the catalogue is its ID, which holds
/// only until the catalogue next changes.
#[derive(Clone, Debug, PartialEq, Eq)]
pub struct Project {
    pub name: String,
}

impl View for Project {
    type V = Seq<char>;

    open spec fn view(&self) -> Seq<char> {
        self.name@
    }
}

/// One line of the overview: a project, its place in the catalogue and the
/// number of its tasks that still need work.
#[derive(Clone, Debug, PartialEq, Eq)]
pub struct ProjectListItem {
    pub index: usize,
    pub name: String,
    pub tasks: i32,
}

/// What a [`ProjectListItem`] holds, as mathematical values.
pub ghost struct ItemView {
    pub index: int,
    pub name: Seq<char>,
    pub tasks: int,
}

impl View for ProjectListItem {
    type V = ItemView;

    open spec fn view(&self) -> ItemView {
        ItemView { index: self.index as int, name: self.name@, tasks: self.tasks as int }
    }
}

/// The names of a sequence of projects.
pub open spec fn project_names(projects: Seq<Project>) -> Seq<Seq<char>> {
    Seq::new(projects.len(), |i: int| projects[i]@)
}

/// The views of a sequence of overview lines.
pub open spec fn item_views(items: Seq<ProjectListItem>) -> Seq<ItemView> {
    Seq::new(items.len(), |i: int| items[i]@)
}

/// The tasks counted for the project `name`: those filed under exactly that
/// name that still need work.
pub open spec fn counted_for(name: Seq<char>) -> spec_fn(TaskView) -> bool {
    |t: TaskView| t.project == Some(name) && t.is_open()
}

/// The tasks filed under exactly the name `name`, whatever their status.
pub open spec fn filed_under(name: Seq<char>) -> spec_fn(TaskView) -> bool {
    |t: TaskView| t.project == Some(name)
}

/// The number of tasks counted for the project `name`.
pub open spec fn open_task_count(tasks: Seq<TaskView>, name: Seq<char>) -> nat {
    tasks.filter(counted_for(name)).len()
}

/// The overview of a catalogue: one line per project, in the catalogue's
/// order, each with its place and its count.
pub open spec fn build_view(tasks: Seq<TaskView>, names: Seq<Seq<char>>) -> Seq<ItemView> {
    Seq::new(
        names.len(),
        |i: int| ItemView { index: i, name: names[i], tasks: open_task_count(tasks, names[i]) as int },
    )
}

/// Among tasks that all still need work, the tasks counted for a name are
/// the tasks filed under it.
proof fn lemma_open_tasks_count_by_name(tasks: Seq<TaskView>, name: Seq<char>)
    requires
        forall|i: int| 0 <= i < tasks.len() ==> (#[trigger] tasks[i]).is_open(),
    ensures
        tasks.filter(counted_for(name)) == tasks.filter(filed_under(name)),
    decreases tasks.len(),
{
    reveal(Seq::filter);
    if tasks.len() > 0 {
        lemma_open_tasks_count_by_name(tasks.drop_last(), name);
    }
}

/// The overview has one line per project, in the catalogue's order and under
/// the catalogue's names, each with its place. Where every task handed in
/// still needs work, as after [`crate::parser::get_task_list`], a line's
/// count is the number of tasks filed under exactly its name.
pub proof fn lemma_view_follows_catalogue(tasks: Seq<TaskView>, names: Seq<Seq<char>>)
    requires
        forall|i: int| 0 <= i < tasks.len() ==> (#[trigger] tasks[i]).is_open(),
    ensures
        build_view(tasks, names).len() == names.len(),
        forall|i: int|
            0 <= i < names.len() ==> (#[trigger] build_view(tasks, names)[i]).index == i
                && build_view(tasks, names)[i].name == names[i] && build_view(
                tasks,
                names,
            )[i].tasks == tasks.filter(filed_under(names[i])).len(),
{
    assert forall|i: int| 0 <= i < names.len() implies (#[trigger] build_view(
        tasks,
        names,
    )[i]).tasks == tasks.filter(filed_under(names[i])).len() by {
        lemma_open_tasks_count_by_name(tasks, names[i]);
    }
}

/// What [`crate::parser::get_task_list`] keeps is counted by name alone:
/// each line's count is the number of kept tasks filed under its name.
pub proof fn lemma_view_of_listed_tasks(exported: Seq<TaskView>, names: Seq<Seq<char>>)
    ensures
        forall|i: int|
            0 <= i < names.len() ==> (#[trigger] build_view(
                exported.filter(actionable()),
                names,
            )[i]).tasks == exported.filter(actionable()).filter(filed_under(names[i])).len(),
{
    let listed = exported.filter(actionable());
    assert forall|i: int| 0 <= i < listed.len() implies (#[trigger] listed[i]).is_open() by {
        exported.lemma_filter_pred(actionable(), i);
    }
    lemma_view_follows_catalogue(listed, names);
}

/// Whatever the tasks' statuses, a line's count never exceeds the number of
/// tasks filed under its name, nor the number of tasks.
pub proof fn lemma_count_is_bounded(tasks: Seq<TaskView>, name: Seq<char>)
    ensures
        open_task_count(tasks, name) <= tasks.filter(filed_under(name)).len() <= tasks.len(),
    decreases tasks.len(),
{
    reveal(Seq::filter);
    if tasks.len() > 0 {
        lemma_count_is_bounded(tasks.drop_last(), name);
    }
}

/// The catalogue as it was read, or the empty catalogue where it could not
/// be read.
pub fn get_projects(stored: Option<Vec<Project>>) -> (projects: Vec<Project>)
    ensures
        stored is Some ==> projects == stored->0,
        stored is None ==> projects@.len() == 0,
{
    match stored {
        Some(catalogue) => catalogue,
        None => Vec::new(),
    }
}

/// Counts the tasks filed under `project_title` that still need work.
pub fn task_count(tasks: &[Task], project_title: &String) -> (count: i32)
    requires
        tasks@.len() <= i32::MAX,
    ensures
        count == open_task_count(task_views(tasks@), project_title@),
{
    let mut count: i32 = 0;
    let mut i: usize = 0;
    let ghost views = task_views(tasks@);
    let ghost pred = counted_for(project_title@);
    proof {
        reveal(Seq::filter);
    }
    while i < tasks.len()
        invariant
            i <= tasks.len(),
            tasks@.len() <= i32::MAX,
            views == task_views(tasks@),
            pred == counted_for(project_title@),
            0 <= count <= i,
            count == views.subrange(0, i as int).filter(pred).len(),
        decreases tasks.len() - i,
    {
        proof {
            lemma_filter_push(views.subrange(0, i as int), views[i as int], pred);
            assert(views.subrange(0, i as int).push(views[i as int]) =~= views.subrange(0, i + 1));
        }
        let task = &tasks[i];
        let filed = match &task.project {
            Some(p) => *p == *project_title,
            None => false,
        };
        if filed && task.is_open() {
            count += 1;
        }
        i += 1;
    }
    assert(views.subrange(0, i as int) =~= views);
    count
}

/// Joins the catalogue with the tasks: for each project, at its place in the
/// catalogue, the number of tasks filed under its name that still need work.
/// A task without a project is counted nowhere.
pub fn generate_project_list(tasks: &[Task], projects: &[Project]) -> (items: Vec<ProjectListItem>)
    requires
        tasks@.len() <= i32::MAX,
    ensures
        item_views(items@) == build_view(task_views(tasks@), project_names(projects@)),
{
    let mut items: Vec<ProjectListItem> = Vec::new();
    let mut index: usize = 0;
    while index < projects.len()
        invariant
            index <= projects.len(),
            tasks@.len() <= i32::MAX,
            items@.len() == index,
            forall|k: int|
                0 <= k < index ==> (#[trigger] items@[k])@ == build_view(
                    task_views(tasks@),
                    project_names(projects@),
                )[k],
        decreases projects.len() - index,
    {
        let project = &projects[index];
        let count = task_count(tasks, &project.name);
        items.push(ProjectListItem { index, name: project.name.clone(), tasks: count });
        index += 1;
    }
    items
}

} // verus!
