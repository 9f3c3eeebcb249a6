//! The task plan: a list of tasks that each plan update replaces as a whole.

use crate::json::{json_parse, lemma_view_items, Json, JsonValue};
use crate::text::str_eq;
use vstd::prelude::*;

verus! {

/// How far a task has come.
#[derive(Debug, Clone, Copy, PartialEq, Eq, Structural)]
pub enum TaskStatus {
    Pending,
    InProgress,
    Complete,
}

/// One task of the plan.
#[derive(Debug, Clone)]
pub struct Task {
    pub id: usize,
    pub description: String,
    pub status: TaskStatus,
}

/// The mathematical content of a task.
pub ghost struct TaskView {
    pub id: usize,
    pub description: Seq<char>,
    pub status: TaskStatus,
}

impl View for Task {
    type V = TaskView;

    open spec fn view(&self) -> TaskView {
        TaskView { id: self.id, description: self.description@, status: self.status }
    }
}

/// The contents of a list of tasks, in order.
pub open spec fn task_views(tasks: Seq<Task>) -> Seq<TaskView> {
    tasks.map_values(|t: Task| t@)
}

/// The status that a plan names: `complete`, `in_progress`, and pending for
/// every other name and where none is given.
pub open spec fn status_of(name: Option<Seq<char>>) -> TaskStatus {
    match name {
        Some(s) => if s == "complete"@ {
            TaskStatus::Complete
        } else if s == "in_progress"@ {
            TaskStatus::InProgress
        } else {
            TaskStatus::Pending
        },
        None => TaskStatus::Pending,
    }
}

/// A task number as the task holds it.  It is the number itself wherever that
/// fits the machine word.
pub open spec fn as_task_id(n: u64) -> usize {
    n as usize
}

/// The task that an element of the plan describes.  A member that is missing
/// or of another type gives the default: number zero, no description, pending.
pub open spec fn task_of(element: JsonValue) -> TaskView {
    TaskView {
        id: match element.unsigned_field("id"@) {
            Some(n) => as_task_id(n),
            None => 0,
        },
        description: match element.text_field("description"@) {
            Some(text) => text,
            None => Seq::empty(),
        },
        status: status_of(element.text_field("status"@)),
    }
}

/// The tasks that a plan lists, if it is an object whose member `tasks` is an
/// array.
pub open spec fn tasks_of(plan: JsonValue) -> Option<Seq<TaskView>> {
    match plan.field("tasks"@) {
        Some(list) => match list.as_items() {
            Some(items) => Some(items.map_values(|element: JsonValue| task_of(element))),
            None => None,
        },
        None => None,
    }
}

/// The task list after a plan update, given what its text parses to: a plan
/// that lists tasks replaces the whole list, anything else leaves it as it is.
pub open spec fn plan_after(current: Seq<TaskView>, parsed: Option<JsonValue>) -> Seq<TaskView> {
    match parsed {
        Some(plan) => match tasks_of(plan) {
            Some(tasks) => tasks,
            None => current,
        },
        None => current,
    }
}

impl TaskStatus {
    /// The status that a plan names.
    pub fn from_name(name: Option<&str>) -> (status: TaskStatus)
        ensures
            status == status_of(
                match name {
                    Some(s) => Some(s@),
                    None => None,
                },
            ),
    {
        match name {
            Some(s) => {
                if str_eq(s, "complete") {
                    TaskStatus::Complete
                } else if str_eq(s, "in_progress") {
                    TaskStatus::InProgress
                } else {
                    TaskStatus::Pending
                }
            },
            None => TaskStatus::Pending,
        }
    }
}

/// A description as the task list shows it: one of more than thirty
/// characters is cut to its first twenty-seven, followed by three dots.
pub open spec fn shortened(description: Seq<char>) -> Seq<char> {
    if description.len() > 30 {
        description.take(27) + "..."@
    } else {
        description
    }
}

impl Task {
    /// The description as the task list shows it.
    pub fn short_description(&self) -> (text: String)
        ensures
            text@ == shortened(self.description@),
    {
        let description = self.description.as_str();
        if description.unicode_len() > 30 {
            assert(description@.take(27) =~= description@.subrange(0, 27));
            let mut text = String::from_str(description.substring_char(0, 27));
            text.append("...");
            text
        } else {
            self.description.clone()
        }
    }

    /// The task that an element of a plan describes.
    pub fn from_json(element: &Json) -> (task: Task)
        ensures
            task@ == task_of(element@),
    {
        let id: usize = match element.unsigned_field("id") {
            Some(n) => n as usize,
            None => 0,
        };
        let description = match element.text_field("description") {
            Some(text) => String::from_str(text),
            None => String::new(),
        };
        let status = TaskStatus::from_name(element.text_field("status"));
        Task { id, description, status }
    }
}

/// The tasks that a plan lists, or `None` if it lists none.
pub fn read_plan(plan: &Json) -> (tasks: Option<Vec<Task>>)
    ensures
        match tasks {
            Some(list) => tasks_of(plan@) == Some(task_views(list@)),
            None => tasks_of(plan@) is None,
        },
{
    let list = match plan.get("tasks") {
        Some(list) => list,
        None => {
            return None;
        },
    };
    let items = match list.as_array() {
        Some(items) => items,
        None => {
            return None;
        },
    };
    proof {
        lemma_view_items(items@);
    }
    let ghost elements = list@->Array_0;
    let mut tasks: Vec<Task> = Vec::new();
    let mut i: usize = 0;
    while i < items.len()
        invariant
            i <= items.len(),
            tasks@.len() == i,
            elements.len() == items.len(),
            forall|k: int| 0 <= k < items.len() ==> #[trigger] elements[k] == items@[k]@,
            forall|k: int| 0 <= k < i ==> (#[trigger] tasks@[k])@ == task_of(elements[k]),
        decreases items.len() - i,
    {
        assert(elements[i as int] == items@[i as int]@);
        tasks.push(Task::from_json(&items[i]));
        i += 1;
    }
    assert(task_views(tasks@) =~= elements.map_values(|element: JsonValue| task_of(element)));
    Some(tasks)
}

/// Takes the text of a plan update into the task list.  A plan that lists
/// tasks replaces the whole list; text that is not JSON, and JSON that lists
/// no tasks, leave the list untouched.
pub fn update_plan(tasks: &mut Vec<Task>, text: &str)
    ensures
        task_views(final(tasks)@) == plan_after(task_views(old(tasks)@), json_parse(text@)),
        json_parse(text@) is None ==> final(tasks)@ == old(tasks)@,
{
    match Json::parse(text) {
        Some(plan) => {
            match read_plan(&plan) {
                Some(list) => {
                    *tasks = list;
                },
                None => {},
            }
        },
        None => {},
    }
}

/// A task number that fits the machine word is kept as it is.
pub proof fn lemma_task_id_kept(n: u64)
    requires
        n <= usize::MAX,
    ensures
        as_task_id(n) == n,
{
}

/// An update never merges: the list afterwards is either the old list or
/// exactly the list of the plan, and text that does not parse keeps the old
/// list.
pub proof fn lemma_plan_replaced_wholesale(current: Seq<TaskView>, parsed: Option<JsonValue>)
    ensures
        plan_after(current, parsed) == current || (parsed matches Some(plan) && tasks_of(plan)
            == Some(plan_after(current, parsed))),
        parsed is None ==> plan_after(current, parsed) == current,
{
}

} // verus!
