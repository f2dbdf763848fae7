//! The `update` command: changes the name, priority or description of a task.
use vstd::prelude::*;
use crate::db::{db_error_text, select_task_by_partial_id, selection, tasks_view};
use crate::model::{Task, TaskPriority, TaskView, priority_text, task_error_text, task_id};
use crate::text::{concat2, concat3, owned};

verus! {

/// The fields that an update changes, each with its new value, ordered by
/// field name: `description`, `name`, `priority`.
pub open spec fn update_changes(
    name: Option<Seq<char>>,
    priority: Option<TaskPriority>,
    description: Option<Seq<char>>,
) -> Seq<(Seq<char>, Seq<char>)> {
    let d: Seq<(Seq<char>, Seq<char>)> = match description {
        Some(v) => seq![("description"@, v)],
        None => Seq::empty(),
    };
    let n: Seq<(Seq<char>, Seq<char>)> = match name {
        Some(v) => seq![("name"@, v)],
        None => Seq::empty(),
    };
    let p: Seq<(Seq<char>, Seq<char>)> = match priority {
        Some(v) => seq![("priority"@, priority_text(v))],
        None => Seq::empty(),
    };
    d + n + p
}

/// What an update does: the id (without `task:`) of the task to change and
/// the changes, or the message of the error it reports.
pub open spec fn update_plan(
    tasks: Seq<TaskView>,
    id: Seq<char>,
    name: Option<Seq<char>>,
    priority: Option<TaskPriority>,
    description: Option<Seq<char>>,
) -> Result<(Seq<char>, Seq<(Seq<char>, Seq<char>)>), Seq<char>> {
    if name is None && priority is None && description is None {
        Err("No fields to update"@)
    } else {
        match selection(tasks, id) {
            Err((k, m)) => Err(db_error_text(k, m)),
            Ok(t) => match task_id(t) {
                Err((k, m)) => Err(task_error_text(k, m)),
                Ok(x) => Ok((x, update_changes(name, priority, description))),
            },
        }
    }
}

/// An update changes exactly the fields given a new value, each to that
/// value, whatever else is given: a new name, priority or description appears
/// among the changes (the priority as its text), a field given nothing does
/// not appear, no field appears twice, and nothing else is changed.
pub proof fn law_update_changes_given_fields(
    tasks: Seq<TaskView>,
    id: Seq<char>,
    name: Option<Seq<char>>,
    priority: Option<TaskPriority>,
    description: Option<Seq<char>>,
)
    ensures
        update_plan(tasks, id, name, priority, description) matches Ok((_, c)) ==> {
            &&& name matches Some(n) ==> c.contains(("name"@, n))
            &&& priority matches Some(p) ==> c.contains(("priority"@, priority_text(p)))
            &&& description matches Some(d) ==> c.contains(("description"@, d))
            &&& forall|i: int|
                0 <= i < c.len() ==> {
                    ||| name matches Some(n) && #[trigger] c[i] == ("name"@, n)
                    ||| priority matches Some(p) && c[i] == ("priority"@, priority_text(p))
                    ||| description matches Some(d) && c[i] == ("description"@, d)
                }
            &&& forall|i: int, j: int| 0 <= i < j < c.len() ==> (#[trigger] c[i]).0 != (#[trigger] c[j]).0
        },
{
    reveal_strlit("name");
    reveal_strlit("priority");
    reveal_strlit("description");
    assert("name"@[0] != "priority"@[0]);
    assert("name"@[0] != "description"@[0]);
    assert("priority"@[0] != "description"@[0]);
    let c = update_changes(name, priority, description);
    if let Some(n) = name {
        let k: int = if description is Some { 1 } else { 0 };
        assert(c[k] == ("name"@, n));
    }
    if let Some(p) = priority {
        let k: int = (if description is Some { 1int } else { 0int }) + (if name is Some { 1int } else { 0int });
        assert(c[k] == ("priority"@, priority_text(p)));
    }
    if let Some(d) = description {
        assert(c[0] == ("description"@, d));
    }
}

/// The views of a list of changes.
pub open spec fn changes_view(c: Seq<(String, String)>) -> Seq<(Seq<char>, Seq<char>)> {
    c.map_values(|p: (String, String)| (p.0@, p.1@))
}

/// The message after a task was updated; a new name, where one was given,
/// follows the task's id behind an arrow.
pub open spec fn updated_message(task_id: Seq<char>, new_name: Option<Seq<char>>) -> Seq<char> {
    match new_name {
        Some(n) => "Successfully updated task '"@ + task_id + "' -> '"@ + n + "'"@,
        None => "Successfully updated task '"@ + task_id + "'"@,
    }
}

/// An update must change something: "No fields to update" when no new name,
/// priority or description is given.
pub fn check_fields(
    name: &Option<String>,
    priority: &Option<TaskPriority>,
    description: &Option<String>,
) -> (r: Result<(), String>)
    ensures
        (name is None && priority is None && description is None) ==> (r matches Err(m) && m@
            == "No fields to update"@),
        !(name is None && priority is None && description is None) ==> r is Ok,
{
    if name.is_none() && priority.is_none() && description.is_none() {
        Err(owned("No fields to update"))
    } else {
        Ok(())
    }
}

/// The task to change and the changes to make to it.
///
/// Fails with "No fields to update" when nothing is to change, and with the
/// error of selecting the task or of reading its id otherwise.
pub fn plan(
    tasks: &Vec<Task>,
    id: &str,
    name: Option<String>,
    priority: Option<TaskPriority>,
    description: Option<String>,
) -> (r: Result<(String, Vec<(String, String)>), String>)
    ensures
        match (r, update_plan(tasks_view(tasks@), id@, name.deep_view(), priority, description.deep_view())) {
            (Ok((s, c)), Ok((x, d))) => s@ == x && changes_view(c@) == d,
            (Err(m), Err(n)) => m@ == n,
            _ => false,
        },
{
    match check_fields(&name, &priority, &description) {
        Err(m) => {
            return Err(m);
        },
        Ok(()) => {},
    }
    let task = match select_task_by_partial_id(tasks, id) {
        Ok(t) => t,
        Err(e) => {
            return Err(e.to_string());
        },
    };
    let task_id = match task.id() {
        Ok(x) => x,
        Err(e) => {
            return Err(e.to_string());
        },
    };
    let ghost want = update_changes(name.deep_view(), priority, description.deep_view());
    let mut changes: Vec<(String, String)> = Vec::new();
    if let Some(d) = description {
        changes.push((owned("description"), d));
    }
    if let Some(n) = name {
        changes.push((owned("name"), n));
    }
    if let Some(p) = priority {
        changes.push((owned("priority"), p.to_string()));
    }
    assert(changes_view(changes@) =~= want);
    Ok((task_id, changes))
}

/// The message after the changes were stored; `new_name` is the new name
/// given to the task, if any.
pub fn report(task_id: &str, new_name: Option<&str>) -> (s: String)
    ensures
        s@ == updated_message(task_id@, match new_name {
            Some(n) => Some(n@),
            None => None,
        }),
{
    let head = concat3("Successfully updated task '", task_id, "'");
    match new_name {
        Some(n) => {
            let s = concat3(head.as_str(), " -> '", n);
            let r = concat2(s.as_str(), "'");
            proof {
                reveal_strlit("Successfully updated task '");
                reveal_strlit("' -> '");
                reveal_strlit(" -> '");
                reveal_strlit("'");
                assert(r@ =~= updated_message(task_id@, Some(n@)));
            }
            r
        },
        None => head,
    }
}

} // verus!
