//! The commands: what the words of the command line ask for, and what each
//! request does to the catalogue and hands back to be shown. Nothing here
//! reads or writes a file: the caller saves the catalogue where an outcome
//! says that it changed.

use vstd::prelude::*;
use comfy_table::Table;
use crate::config::{Cli, GtdConfig};
use crate::grid::{table_header, table_rows};
use crate::order::{sorted_by_tasks, with_count};
use crate::parser::{Task, TaskView, task_views, word_view};
use crate::select::lemma_filter_push;
use crate::project::{
    ItemView, Project, build_view, filed_under, generate_project_list, item_views, project_names,
};
use crate::table::{
    ProjectDetails, list_headings, project_details_table, project_list_table, shown_rows,
    summary_headings, summary_row, task_headings, task_rows, titles,
};
use crate::text::{parse_id, parsed_id};

verus! {

/// Why a command was not carried out.
#[derive(Clone, Copy, Debug, PartialEq, Eq, Structural)]
pub enum CommandError {
    /// The ID is a number, but the catalogue has no project at that place.
    NotFound(usize),
    /// `add` came without a name.
    MissingName,
    /// `add` came with a name that the catalogue already has.
    AlreadyExists,
    /// `delete` or `show` came without an ID.
    MissingId,
    /// What stands where an ID belongs is not a number.
    BadId,
    /// What follows the ID is neither `delete` nor `show`.
    UnknownSubcommand,
}

impl CommandError {
    /// Whether the run ends in failure. Only a malformed ID does that: the
    /// others are reported and the run ends well.
    pub fn is_fatal(&self) -> (fatal: bool)
        ensures
            fatal == (*self == CommandError::BadId),
    {
        match self {
            CommandError::BadId => true,
            _ => false,
        }
    }
}

/// Why a run did not do what was asked of it.
#[derive(Clone, Copy, Debug, PartialEq, Eq, Structural)]
pub enum Failure {
    /// The tracker could not be run, or ended in failure.
    SourceUnavailable,
    /// What the tracker exported could not be read as tasks.
    MalformedData,
    /// The catalogue could not be written.
    PersistError,
    /// The command was refused.
    Refused(CommandError),
}

impl Failure {
    /// Whether the run ends in failure: always where the tracker or the
    /// catalogue file failed, and for a refused command as
    /// [`CommandError::is_fatal`] says.
    pub open spec fn fatal(self) -> bool {
        match self {
            Failure::Refused(error) => error == CommandError::BadId,
            _ => true,
        }
    }

    /// Whether the run ends in failure.
    pub fn is_fatal(&self) -> (fatal: bool)
        ensures
            fatal == self.fatal(),
    {
        match self {
            Failure::Refused(error) => error.is_fatal(),
            _ => true,
        }
    }

    /// The status with which the run ends: 1 after a fatal failure, 0 after
    /// one that was only reported.
    pub fn exit_status(&self) -> (status: i32)
        ensures
            self.fatal() ==> status == 1,
            !self.fatal() ==> status == 0,
    {
        if self.is_fatal() {
            1
        } else {
            0
        }
    }
}

/// What a command line asks for.
#[derive(Clone, Debug, PartialEq, Eq)]
pub enum Request {
    Init,
    List,
    Count,
    Add(String),
    Reset,
    Delete(usize),
    Show(usize),
}

/// A [`Request`] as mathematical values.
pub ghost enum RequestView {
    Init,
    List,
    Count,
    Add(Seq<char>),
    Reset,
    Delete(usize),
    Show(usize),
}

impl View for Request {
    type V = RequestView;

    open spec fn view(&self) -> RequestView {
        match self {
            Request::Init => RequestView::Init,
            Request::List => RequestView::List,
            Request::Count => RequestView::Count,
            Request::Add(name) => RequestView::Add(name@),
            Request::Reset => RequestView::Reset,
            Request::Delete(id) => RequestView::Delete(*id),
            Request::Show(id) => RequestView::Show(*id),
        }
    }
}

/// How the catalogue changed.
#[derive(Clone, Debug, PartialEq, Eq)]
pub enum Change {
    /// It was drawn afresh from the tasks.
    Initialized,
    /// A project was appended.
    Added,
    /// It was emptied.
    Reset,
    /// The project of this name was removed.
    Removed(String),
}

/// What a command hands back to its caller.
pub enum Outcome {
    /// The overview, to be printed.
    Overview(Table),
    /// One project, to be printed.
    Details(ProjectDetails),
    /// A number of projects, to be printed.
    Count(usize),
    /// The catalogue changed and is to be saved.
    Saved(Change),
    /// Nothing was done.
    Refused(CommandError),
}

/// The word after `delete` or `show` as a request on the project it names,
/// in a catalogue of `project_count` projects.
pub open spec fn addressed(
    word: Option<Seq<char>>,
    project_count: nat,
    delete: bool,
) -> Result<RequestView, CommandError> {
    match word {
        None => Err(CommandError::MissingId),
        Some(text) => match parsed_id(text) {
            None => Err(CommandError::BadId),
            Some(id) => if id >= project_count {
                Err(CommandError::NotFound(id))
            } else if delete {
                Ok(RequestView::Delete(id))
            } else {
                Ok(RequestView::Show(id))
            },
        },
    }
}

/// A first word that is no command, read as a project ID, with the word
/// that follows it: `delete`, or `show`, which is also meant where nothing
/// follows. Whether the ID is a number is asked first, then whether it
/// names a project, then what follows it.
pub open spec fn subcommand_of(
    command: Seq<char>,
    subcommand: Option<Seq<char>>,
    project_count: nat,
) -> Result<RequestView, CommandError> {
    match parsed_id(command) {
        None => Err(CommandError::BadId),
        Some(id) => if id >= project_count {
            Err(CommandError::NotFound(id))
        } else {
            match subcommand {
                None => Ok(RequestView::Show(id)),
                Some(word) => if word == "delete"@ {
                    Ok(RequestView::Delete(id))
                } else if word == "show"@ {
                    Ok(RequestView::Show(id))
                } else {
                    Err(CommandError::UnknownSubcommand)
                },
            }
        },
    }
}

/// What the two words of a command line ask for, in a catalogue of
/// `project_count` projects. No word at all asks for the overview.
pub open spec fn request_of(
    command: Option<Seq<char>>,
    subcommand: Option<Seq<char>>,
    project_count: nat,
) -> Result<RequestView, CommandError> {
    match command {
        None => Ok(RequestView::List),
        Some(word) => if word == "init"@ {
            Ok(RequestView::Init)
        } else if word == "list"@ {
            Ok(RequestView::List)
        } else if word == "count"@ {
            Ok(RequestView::Count)
        } else if word == "add"@ {
            match subcommand {
                Some(name) => Ok(RequestView::Add(name)),
                None => Err(CommandError::MissingName),
            }
        } else if word == "reset"@ {
            Ok(RequestView::Reset)
        } else if word == "delete"@ {
            addressed(subcommand, project_count, true)
        } else if word == "show"@ {
            addressed(subcommand, project_count, false)
        } else {
            subcommand_of(word, subcommand, project_count)
        },
    }
}

/// A request and its view, or the same refusal.
pub open spec fn same_request(
    result: Result<Request, CommandError>,
    expected: Result<RequestView, CommandError>,
) -> bool {
    match result {
        Ok(request) => expected == Ok::<RequestView, CommandError>(request@),
        Err(error) => expected == Err::<RequestView, CommandError>(error),
    }
}

fn is_word(text: &String, word: &str) -> (same: bool)
    ensures
        same == (text@ == word@),
{
    let owned: String = word.to_owned();
    *text == owned
}

fn parse_addressed(word: &Option<String>, project_count: usize, delete: bool) -> (result: Result<
    Request,
    CommandError,
>)
    ensures
        same_request(result, addressed(word_view(*word), project_count as nat, delete)),
{
    match word {
        None => Err(CommandError::MissingId),
        Some(text) => match parse_id(text.as_str()) {
            None => Err(CommandError::BadId),
            Some(id) => if id >= project_count {
                Err(CommandError::NotFound(id))
            } else if delete {
                Ok(Request::Delete(id))
            } else {
                Ok(Request::Show(id))
            },
        },
    }
}

/// Reads a first word that is no command as a project ID, and the word
/// after it as what to do with that project.
pub fn parse_subcommand(command: &String, subcommand: &Option<String>, project_count: usize) -> (result:
    Result<Request, CommandError>)
    ensures
        same_request(
            result,
            subcommand_of(command@, word_view(*subcommand), project_count as nat),
        ),
{
    match parse_id(command.as_str()) {
        None => Err(CommandError::BadId),
        Some(id) => if id >= project_count {
            Err(CommandError::NotFound(id))
        } else {
            match subcommand {
                None => Ok(Request::Show(id)),
                Some(word) => if is_word(word, "delete") {
                    Ok(Request::Delete(id))
                } else if is_word(word, "show") {
                    Ok(Request::Show(id))
                } else {
                    Err(CommandError::UnknownSubcommand)
                },
            }
        },
    }
}

/// Reads the words of the command line as a request on a catalogue of
/// `project_count` projects.
pub fn parse_request(args: &Cli, project_count: usize) -> (result: Result<Request, CommandError>)
    ensures
        same_request(
            result,
            request_of(word_view(args.command), word_view(args.subcommand), project_count as nat),
        ),
{
    match &args.command {
        None => Ok(Request::List),
        Some(word) => if is_word(word, "init") {
            Ok(Request::Init)
        } else if is_word(word, "list") {
            Ok(Request::List)
        } else if is_word(word, "count") {
            Ok(Request::Count)
        } else if is_word(word, "add") {
            match &args.subcommand {
                Some(name) => Ok(Request::Add(name.clone())),
                None => Err(CommandError::MissingName),
            }
        } else if is_word(word, "reset") {
            Ok(Request::Reset)
        } else if is_word(word, "delete") {
            parse_addressed(&args.subcommand, project_count, true)
        } else if is_word(word, "show") {
            parse_addressed(&args.subcommand, project_count, false)
        } else {
            parse_subcommand(word, &args.subcommand, project_count)
        },
    }
}

/// The project names of the tasks, each once, in the order in which the
/// tasks first name them.
pub open spec fn distinct_projects(tasks: Seq<TaskView>) -> Seq<Seq<char>>
    decreases tasks.len(),
{
    if tasks.len() == 0 {
        Seq::empty()
    } else {
        let before = distinct_projects(tasks.drop_last());
        match tasks.last().project {
            Some(name) => if before.contains(name) {
                before
            } else {
                before.push(name)
            },
            None => before,
        }
    }
}

/// The names drawn from the tasks hold no name twice, and hold a name
/// exactly if some task is filed under it.
pub proof fn lemma_distinct_projects(tasks: Seq<TaskView>)
    ensures
        distinct_projects(tasks).no_duplicates(),
        forall|name: Seq<char>| #[trigger]
            distinct_projects(tasks).contains(name) <==> exists|i: int|
                0 <= i < tasks.len() && #[trigger] tasks[i].project == Some(name),
    decreases tasks.len(),
{
    if tasks.len() > 0 {
        let rest = tasks.drop_last();
        let before = distinct_projects(rest);
        let here = distinct_projects(tasks);
        lemma_distinct_projects(rest);
        assert forall|name: Seq<char>| #[trigger] here.contains(name) implies exists|i: int|
            0 <= i < tasks.len() && #[trigger] tasks[i].project == Some(name) by {
            if before.contains(name) {
                let i = choose|i: int| 0 <= i < rest.len() && #[trigger] rest[i].project == Some(name);
                assert(tasks[i].project == Some(name));
            } else {
                assert(tasks.last().project == Some(name));
            }
        }
        assert forall|name: Seq<char>|
            (exists|i: int|
                0 <= i < tasks.len() && #[trigger] tasks[i].project == Some(
                    name,
                )) implies #[trigger] here.contains(name) by {
            let i = choose|i: int| 0 <= i < tasks.len() && #[trigger] tasks[i].project == Some(name);
            if i < rest.len() {
                assert(rest[i].project == Some(name));
                assert(before.contains(name));
                let k = choose|k: int| 0 <= k < before.len() && before[k] == name;
                assert(here[k] == name);
            } else {
                if !before.contains(name) {
                    assert(here[before.len() as int] == name);
                }
            }
        }
    }
}

fn has_name(projects: &Vec<Project>, name: &String) -> (found: bool)
    ensures
        found == project_names(projects@).contains(name@),
{
    let mut i: usize = 0;
    while i < projects.len()
        invariant
            i <= projects.len(),
            forall|k: int| 0 <= k < i ==> project_names(projects@)[k] != name@,
        decreases projects.len() - i,
    {
        if projects[i].name == *name {
            assert(project_names(projects@)[i as int] == name@);
            return true;
        }
        i += 1;
    }
    false
}

/// Draws a catalogue from the tasks: the names of their projects, each once,
/// in the order in which the tasks first name them.
pub fn init_projects(tasks: &[Task]) -> (projects: Vec<Project>)
    ensures
        project_names(projects@) == distinct_projects(task_views(tasks@)),
{
    let mut projects: Vec<Project> = Vec::new();
    let mut i: usize = 0;
    let ghost views = task_views(tasks@);
    while i < tasks.len()
        invariant
            i <= tasks.len(),
            views == task_views(tasks@),
            project_names(projects@) == distinct_projects(views.subrange(0, i as int)),
        decreases tasks.len() - i,
    {
        proof {
            let next = views.subrange(0, i + 1);
            assert(next.drop_last() =~= views.subrange(0, i as int));
        }
        match &tasks[i].project {
            Some(name) => {
                if !has_name(&projects, name) {
                    projects.push(Project { name: name.clone() });
                }
            },
            None => {},
        }
        i += 1;
    }
    assert(views.subrange(0, i as int) =~= views);
    projects
}

/// The number that `count` reports: in the short display the number of
/// projects without tasks, otherwise the number of projects.
pub open spec fn reported_count(short: bool, tasks: Seq<TaskView>, names: Seq<Seq<char>>) -> nat {
    if short {
        build_view(tasks, names).filter(with_count(0)).len()
    } else {
        names.len()
    }
}

/// Counts the projects, or in the short display those without tasks.
pub fn count_projects(cfg: &GtdConfig, tasks: &[Task], projects: &[Project]) -> (count: usize)
    requires
        tasks@.len() <= i32::MAX,
    ensures
        count == reported_count(cfg.short, task_views(tasks@), project_names(projects@)),
{
    if !cfg.short {
        return projects.len();
    }
    let items = generate_project_list(tasks, projects);
    let ghost lines = item_views(items@);
    let mut count: usize = 0;
    let mut i: usize = 0;
    proof {
        reveal(Seq::filter);
    }
    while i < items.len()
        invariant
            i <= items.len(),
            lines == item_views(items@),
            count <= i,
            count == lines.subrange(0, i as int).filter(with_count(0)).len(),
        decreases items.len() - i,
    {
        proof {
            lemma_filter_push(lines.subrange(0, i as int), lines[i as int], with_count(0));
            assert(lines.subrange(0, i as int).push(lines[i as int]) =~= lines.subrange(0, i + 1));
        }
        if items[i].tasks == 0 {
            count += 1;
        }
        i += 1;
    }
    assert(lines.subrange(0, i as int) =~= lines);
    count
}

/// The empty catalogue.
pub fn reset_projects() -> (projects: Vec<Project>)
    ensures
        projects@.len() == 0,
{
    Vec::new()
}

/// Appends a project of the given name, unless the catalogue has one of
/// that name already: then the catalogue stays as it is.
pub fn add_project(name: String, projects: &mut Vec<Project>) -> (result: Result<(), CommandError>)
    ensures
        project_names(old(projects)@).contains(name@) ==> result == Err::<(), CommandError>(
            CommandError::AlreadyExists,
        ) && *final(projects) == *old(projects),
        !project_names(old(projects)@).contains(name@) ==> result is Ok && project_names(
            final(projects)@,
        ) == project_names(old(projects)@).push(name@),
{
    if has_name(projects, &name) {
        Err(CommandError::AlreadyExists)
    } else {
        projects.push(Project { name });
        Ok(())
    }
}

/// Removes the project at `project_id` and hands back its name. The
/// projects behind it move up by one place. An ID beyond the catalogue
/// removes nothing.
pub fn remove_project_item(project_id: usize, projects: &mut Vec<Project>) -> (result: Result<
    String,
    CommandError,
>)
    ensures
        project_id < old(projects)@.len() ==> result is Ok && (result->Ok_0)@ == old(
            projects,
        )@[project_id as int]@ && project_names(final(projects)@) == project_names(
            old(projects)@,
        ).remove(project_id as int),
        project_id >= old(projects)@.len() ==> result == Err::<String, CommandError>(
            CommandError::NotFound(project_id),
        ) && *final(projects) == *old(projects),
{
    if project_id >= projects.len() {
        return Err(CommandError::NotFound(project_id));
    }
    let project = projects.remove(project_id);
    Ok(project.name)
}

/// Removes the project at `proj_id` and says what became of the catalogue.
pub fn delete_item(proj_id: usize, projects: &mut Vec<Project>) -> (outcome: Outcome)
    ensures
        deleted(proj_id, project_names(old(projects)@), project_names(final(projects)@), outcome),
        !(outcome is Saved) ==> *final(projects) == *old(projects),
{
    match remove_project_item(proj_id, projects) {
        Ok(name) => Outcome::Saved(Change::Removed(name)),
        Err(error) => Outcome::Refused(error),
    }
}

/// `details` shows the project `name` with the tasks `tasks`.
pub open spec fn shows(
    details: ProjectDetails,
    color: bool,
    name: Seq<char>,
    tasks: Seq<TaskView>,
) -> bool {
    &&& table_header(details.summary) == Some(titles(summary_headings()))
    &&& table_rows(details.summary) == seq![summary_row(color, name, tasks.len() as int)]
    &&& details.tasks is Some <==> tasks.len() > 0
    &&& details.tasks is Some ==> table_header(details.tasks->0) == Some(titles(task_headings()))
        && table_rows(details.tasks->0) == task_rows(color, tasks)
}

fn tasks_of(tasks: &[Task], name: &String) -> (own: Vec<Task>)
    ensures
        task_views(own@) == task_views(tasks@).filter(filed_under(name@)),
{
    let mut own: Vec<Task> = Vec::new();
    let mut i: usize = 0;
    let ghost views = task_views(tasks@);
    let ghost pred = filed_under(name@);
    proof {
        reveal(Seq::filter);
    }
    while i < tasks.len()
        invariant
            i <= tasks.len(),
            views == task_views(tasks@),
            pred == filed_under(name@),
            task_views(own@) == views.subrange(0, i as int).filter(pred),
        decreases tasks.len() - i,
    {
        proof {
            lemma_filter_push(views.subrange(0, i as int), views[i as int], pred);
            assert(views.subrange(0, i as int).push(views[i as int]) =~= views.subrange(0, i + 1));
        }
        let filed = match &tasks[i].project {
            Some(p) => *p == *name,
            None => false,
        };
        if filed {
            own.push(tasks[i].clone());
        }
        i += 1;
    }
    assert(views.subrange(0, i as int) =~= views);
    own
}

/// Shows the project at `project_id` with the tasks filed under its name.
/// An ID beyond the catalogue shows nothing.
pub fn show_project(cfg: &GtdConfig, project_id: usize, projects: &[Project], tasks: &[Task]) -> (result:
    Result<ProjectDetails, CommandError>)
    ensures
        project_id < projects@.len() ==> result is Ok && shows(
            result->Ok_0,
            cfg.color,
            projects@[project_id as int]@,
            task_views(tasks@).filter(filed_under(projects@[project_id as int]@)),
        ),
        project_id >= projects@.len() ==> result == Err::<ProjectDetails, CommandError>(
            CommandError::NotFound(project_id),
        ),
{
    if project_id >= projects.len() {
        return Err(CommandError::NotFound(project_id));
    }
    let project = &projects[project_id];
    let project_tasks = tasks_of(tasks, &project.name);
    Ok(project_details_table(cfg, project, project_tasks.as_slice()))
}

/// What deleting the project at `id` makes of the catalogue `before`.
pub open spec fn deleted(
    id: usize,
    before: Seq<Seq<char>>,
    after: Seq<Seq<char>>,
    outcome: Outcome,
) -> bool {
    if id < before.len() {
        &&& after == before.remove(id as int)
        &&& outcome matches Outcome::Saved(Change::Removed(name))
        &&& name@ == before[id as int]
    } else {
        &&& after == before
        &&& outcome == Outcome::Refused(CommandError::NotFound(id))
    }
}

/// What a request makes of the catalogue `before`, and what it hands back.
pub open spec fn performed(
    color: bool,
    short: bool,
    request: RequestView,
    tasks: Seq<TaskView>,
    before: Seq<Seq<char>>,
    after: Seq<Seq<char>>,
    outcome: Outcome,
) -> bool {
    match request {
        RequestView::Init => {
            &&& after == distinct_projects(tasks)
            &&& outcome matches Outcome::Saved(Change::Initialized)
        },
        RequestView::List => {
            &&& after == before
            &&& outcome matches Outcome::Overview(table)
            &&& table_header(table) == Some(titles(list_headings()))
            &&& table_rows(table) == shown_rows(
                color,
                short,
                sorted_by_tasks(build_view(tasks, before)),
            )
        },
        RequestView::Count => {
            &&& after == before
            &&& outcome matches Outcome::Count(count)
            &&& count == reported_count(short, tasks, before)
        },
        RequestView::Add(name) => if before.contains(name) {
            &&& after == before
            &&& outcome == Outcome::Refused(CommandError::AlreadyExists)
        } else {
            &&& after == before.push(name)
            &&& outcome matches Outcome::Saved(Change::Added)
        },
        RequestView::Reset => {
            &&& after == Seq::<Seq<char>>::empty()
            &&& outcome matches Outcome::Saved(Change::Reset)
        },
        RequestView::Delete(id) => deleted(id, before, after, outcome),
        RequestView::Show(id) => {
            &&& after == before
            &&& if id < before.len() {
                &&& outcome matches Outcome::Details(details)
                &&& shows(details, color, before[id as int], tasks.filter(filed_under(before[id as int])))
            } else {
                outcome == Outcome::Refused(CommandError::NotFound(id))
            }
        },
    }
}

/// Carries out a request on the catalogue. Where the outcome is
/// [`Outcome::Saved`] the catalogue has changed and is to be written back;
/// otherwise it is as it was.
pub fn perform(cfg: &GtdConfig, request: Request, tasks: &[Task], projects: &mut Vec<Project>) -> (outcome:
    Outcome)
    requires
        tasks@.len() <= i32::MAX,
    ensures
        performed(
            cfg.color,
            cfg.short,
            request@,
            task_views(tasks@),
            project_names(old(projects)@),
            project_names(final(projects)@),
            outcome,
        ),
        !(outcome is Saved) ==> *final(projects) == *old(projects),
{
    match request {
        Request::Init => {
            *projects = init_projects(tasks);
            Outcome::Saved(Change::Initialized)
        },
        Request::List => Outcome::Overview(project_list_table(cfg, tasks, projects.as_slice())),
        Request::Count => Outcome::Count(count_projects(cfg, tasks, projects.as_slice())),
        Request::Add(name) => match add_project(name, projects) {
            Ok(()) => Outcome::Saved(Change::Added),
            Err(error) => Outcome::Refused(error),
        },
        Request::Reset => {
            *projects = reset_projects();
            assert(project_names(projects@) =~= Seq::<Seq<char>>::empty());
            Outcome::Saved(Change::Reset)
        },
        Request::Delete(id) => delete_item(id, projects),
        Request::Show(id) => match show_project(cfg, id, projects.as_slice(), tasks) {
            Ok(details) => Outcome::Details(details),
            Err(error) => Outcome::Refused(error),
        },
    }
}

/// What a command line makes of the catalogue `before`, and what it hands
/// back: what its request does, or a refusal that leaves the catalogue.
pub open spec fn ran(
    color: bool,
    short: bool,
    command: Option<Seq<char>>,
    subcommand: Option<Seq<char>>,
    tasks: Seq<TaskView>,
    before: Seq<Seq<char>>,
    after: Seq<Seq<char>>,
    outcome: Outcome,
) -> bool {
    match request_of(command, subcommand, before.len()) {
        Ok(request) => performed(color, short, request, tasks, before, after, outcome),
        Err(error) => outcome == Outcome::Refused(error) && after == before,
    }
}

/// Runs one command line against the tasks and the catalogue: reads the
/// request and carries it out. A command line that asks for nothing that
/// can be done leaves the catalogue as it is and is refused with the reason.
pub fn run(cfg: &GtdConfig, args: &Cli, tasks: &[Task], projects: &mut Vec<Project>) -> (outcome:
    Outcome)
    requires
        tasks@.len() <= i32::MAX,
    ensures
        ran(
            cfg.color,
            cfg.short,
            word_view(args.command),
            word_view(args.subcommand),
            task_views(tasks@),
            project_names(old(projects)@),
            project_names(final(projects)@),
            outcome,
        ),
        !(outcome is Saved) ==> *final(projects) == *old(projects),
{
    match parse_request(args, projects.len()) {
        Ok(request) => perform(cfg, request, tasks, projects),
        Err(error) => Outcome::Refused(error),
    }
}

} // verus!
