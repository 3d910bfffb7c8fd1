//! Tasks as the tracker exports them, and the filter that keeps the ones
//! that still need work.

use vstd::prelude::*;
use crate::select::lemma_filter_push;
use crate::text::texts;

verus! {

/// One task of the tracker. Read once per run and never written back.
#[derive(Debug, PartialEq, Eq)]
pub struct Task {
    pub id: i32,
    pub brainpower: Option<String>,
    pub priority: Option<String>,
    pub project: Option<String>,
    pub description: String,
    pub end: Option<String>,
    pub entry: String,
    pub modified: String,
    pub status: String,
    pub uuid: String,
    pub tags: Option<Vec<String>>,
}

/// What a [`Task`] holds, as mathematical values.
pub ghost struct TaskView {
    pub id: int,
    pub brainpower: Option<Seq<char>>,
    pub priority: Option<Seq<char>>,
    pub project: Option<Seq<char>>,
    pub description: Seq<char>,
    pub end: Option<Seq<char>>,
    pub entry: Seq<char>,
    pub modified: Seq<char>,
    pub status: Seq<char>,
    pub uuid: Seq<char>,
    pub tags: Option<Seq<Seq<char>>>,
}

/// The text of an optional string.
pub open spec fn word_view(word: Option<String>) -> Option<Seq<char>> {
    match word {
        Some(text) => Some(text@),
        None => None,
    }
}

impl View for Task {
    type V = TaskView;

    open spec fn view(&self) -> TaskView {
        TaskView {
            id: self.id as int,
            brainpower: word_view(self.brainpower),
            priority: word_view(self.priority),
            project: word_view(self.project),
            description: self.description@,
            end: word_view(self.end),
            entry: self.entry@,
            modified: self.modified@,
            status: self.status@,
            uuid: self.uuid@,
            tags: match self.tags {
                Some(t) => Some(texts(t@)),
                None => None,
            },
        }
    }
}

/// The views of a sequence of tasks.
pub open spec fn task_views(tasks: Seq<Task>) -> Seq<TaskView> {
    Seq::new(tasks.len(), |i: int| tasks[i]@)
}

impl TaskView {
    /// The task still needs work: its status is `pending` or `waiting`.
    pub open spec fn is_open(self) -> bool {
        self.status == "pending"@ || self.status == "waiting"@
    }

    /// The task is listed: it belongs to a project and still needs work.
    pub open spec fn is_actionable(self) -> bool {
        self.project is Some && self.is_open()
    }
}

/// The predicate of [`TaskView::is_actionable`], for `Seq::filter`.
pub open spec fn actionable() -> spec_fn(TaskView) -> bool {
    |t: TaskView| t.is_actionable()
}

fn copy_strings(strings: &Vec<String>) -> (copy: Vec<String>)
    ensures
        texts(copy@) == texts(strings@),
{
    let mut copy: Vec<String> = Vec::new();
    let mut i: usize = 0;
    while i < strings.len()
        invariant
            i <= strings.len(),
            copy@.len() == i,
            forall|k: int| 0 <= k < i ==> copy@[k]@ == strings@[k]@,
        decreases strings.len() - i,
    {
        copy.push(strings[i].clone());
        i += 1;
    }
    copy
}

fn copy_word(word: &Option<String>) -> (copy: Option<String>)
    ensures
        word_view(copy) == word_view(*word),
{
    match word {
        Some(text) => Some(text.clone()),
        None => None,
    }
}

impl Clone for Task {
    fn clone(&self) -> (copy: Task)
        ensures
            copy@ == self@,
    {
        let tags = match &self.tags {
            Some(t) => Some(copy_strings(t)),
            None => None,
        };
        Task {
            id: self.id,
            brainpower: copy_word(&self.brainpower),
            priority: copy_word(&self.priority),
            project: copy_word(&self.project),
            description: self.description.clone(),
            end: copy_word(&self.end),
            entry: self.entry.clone(),
            modified: self.modified.clone(),
            status: self.status.clone(),
            uuid: self.uuid.clone(),
            tags,
        }
    }
}

impl Task {
    /// Whether the task still needs work.
    pub fn is_open(&self) -> (open: bool)
        ensures
            open == self@.is_open(),
    {
        let pending: String = "pending".to_owned();
        let waiting: String = "waiting".to_owned();
        self.status == pending || self.status == waiting
    }

    /// Whether the task is listed under a project.
    pub fn is_actionable(&self) -> (listed: bool)
        ensures
            listed == self@.is_actionable(),
    {
        self.project.is_some() && self.is_open()
    }
}

/// Keeps, in their order, the exported tasks that belong to a project and
/// whose status is `pending` or `waiting`.
pub fn get_task_list(exported: &[Task]) -> (tasks: Vec<Task>)
    ensures
        task_views(tasks@) == task_views(exported@).filter(actionable()),
{
    let mut tasks: Vec<Task> = Vec::new();
    let mut i: usize = 0;
    proof {
        reveal(Seq::filter);
    }
    while i < exported.len()
        invariant
            i <= exported.len(),
            task_views(tasks@) == task_views(exported@).subrange(0, i as int).filter(actionable()),
        decreases exported.len() - i,
    {
        let ghost seen = task_views(exported@).subrange(0, i as int);
        proof {
            lemma_filter_push(seen, exported@[i as int]@, actionable());
            assert(seen.push(exported@[i as int]@) =~= task_views(exported@).subrange(
                0,
                i + 1,
            ));
        }
        if exported[i].is_actionable() {
            tasks.push(exported[i].clone());
        }
        i += 1;
    }
    assert(task_views(exported@).subrange(0, i as int) =~= task_views(exported@));
    tasks
}

} // verus!
