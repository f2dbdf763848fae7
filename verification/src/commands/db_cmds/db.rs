//! The SQLite task store: the statements it runs and the listing it prints.
//! Running the statements happens outside the library.
use vstd::prelude::*;
use crate::text::{
    chars_of, concat3, concat4, i64_to_string, owned, pad_right, pad_right_exec, signed_decimal,
    string_of,
};

verus! {

/// The statement that updates a task: one `column = (?)` assignment for each
/// field given, in the order name, priority, description, then the `WHERE`
/// clause on the id.  The character before the `WHERE` clause is dropped, as
/// it is the trailing comma of the assignments (with no field given, it is
/// the `T` of `SET`).
pub open spec fn update_statement(name: bool, priority: bool, description: bool) -> Seq<char> {
    update_statement_set(name, priority, description).drop_last() + " WHERE id = (?);"@
}

/// `UPDATE tasks SET` followed by one `column = (?),` for each field given.
pub open spec fn update_statement_set(name: bool, priority: bool, description: bool) -> Seq<char> {
    "UPDATE tasks SET"@ + (if name {
        " name = (?),"@
    } else {
        Seq::empty()
    }) + (if priority {
        " priority = (?),"@
    } else {
        Seq::empty()
    }) + (if description {
        " description = (?),"@
    } else {
        Seq::empty()
    })
}

/// `v` followed by the characters of `s`.
fn push_text(v: &mut Vec<char>, s: &str)
    ensures
        final(v)@ == old(v)@ + s@,
{
    let mut cs = chars_of(s);
    v.append(&mut cs);
}

/// The statement that updates the given fields of a task.
pub fn update_sql(name: bool, priority: bool, description: bool) -> (s: String)
    ensures
        s@ == update_statement(name, priority, description),
{
    let mut sql = chars_of("UPDATE tasks SET");
    if name {
        push_text(&mut sql, " name = (?),");
    }
    if priority {
        push_text(&mut sql, " priority = (?),");
    }
    if description {
        push_text(&mut sql, " description = (?),");
    }
    let ghost before = sql@;
    proof {
        reveal_strlit("UPDATE tasks SET");
        assert(before =~= update_statement_set(name, priority, description));
    }
    sql.pop();
    push_text(&mut sql, " WHERE id = (?);");
    proof {
        assert(sql@ =~= before.drop_last() + " WHERE id = (?);"@);
    }
    string_of(&sql)
}

/// A task as the `tasks` table holds it.
#[derive(Debug)]
pub struct TaskFromDb {
    pub id: i64,
    pub name: String,
    pub priority: String,
    pub description: Option<String>,
    pub created_on: String,
    pub completed_on: Option<String>,
}

/// A line of the task listing: six cells, left-aligned in columns of widths
/// 5, 20, 10, 20, 35 and 35, separated by a space.
pub open spec fn listing_line(
    a: Seq<char>,
    b: Seq<char>,
    c: Seq<char>,
    d: Seq<char>,
    e: Seq<char>,
    f: Seq<char>,
) -> Seq<char> {
    pad_right(a, 5) + " "@ + pad_right(b, 20) + " "@ + pad_right(c, 10) + " "@ + pad_right(d, 20)
        + " "@ + pad_right(e, 35) + " "@ + pad_right(f, 35)
}

/// The line of a task: a missing description shows as `NULL`, a task not
/// completed as `IN-PROGRESS`.
pub open spec fn task_line(t: TaskFromDb) -> Seq<char> {
    listing_line(
        signed_decimal(t.id as int),
        t.name@,
        t.priority@,
        match t.description {
            Some(d) => d@,
            None => "NULL"@,
        },
        t.created_on@,
        match t.completed_on {
            Some(c) => c@,
            None => "IN-PROGRESS"@,
        },
    )
}

/// The header line of the task listing.
pub open spec fn listing_header() -> Seq<char> {
    listing_line("ID"@, "Name"@, "Priority"@, "Description"@, "Created On"@, "Completed On"@)
}

/// The rule above and below the tasks: 110 dashes.
pub open spec fn listing_rule() -> Seq<char> {
    Seq::new(110, |i: int| '-')
}

/// A line of the task listing.
fn listing_line_exec(a: &str, b: &str, c: &str, d: &str, e: &str, f: &str) -> (r: String)
    ensures
        r@ == listing_line(a@, b@, c@, d@, e@, f@),
{
    let pa = pad_right_exec(a, 5);
    let pb = pad_right_exec(b, 20);
    let pc = pad_right_exec(c, 10);
    let pd = pad_right_exec(d, 20);
    let pe = pad_right_exec(e, 35);
    let pf = pad_right_exec(f, 35);
    let mut r = concat4(pa.as_str(), " ", pb.as_str(), " ");
    r.append(pc.as_str());
    r.append(" ");
    r.append(pd.as_str());
    r.append(" ");
    r.append(pe.as_str());
    r.append(" ");
    r.append(pf.as_str());
    r
}

/// 110 dashes.
fn rule_exec() -> (r: String)
    ensures
        r@ == listing_rule(),
{
    let mut v: Vec<char> = Vec::new();
    let mut k: usize = 0;
    while k < 110
        invariant
            k <= 110,
            v@ == Seq::new(k as nat, |i: int| '-'),
        decreases 110 - k,
    {
        v.push('-');
        k = k + 1;
        assert(v@ =~= Seq::new(k as nat, |i: int| '-'));
    }
    string_of(&v)
}

/// The listing of the tasks, line by line: the header, a rule, one line per
/// task in the order given, and a closing rule.
pub fn task_listing(tasks: &Vec<TaskFromDb>) -> (lines: Vec<String>)
    ensures
        lines@.len() == tasks@.len() + 3,
        lines@[0]@ == listing_header(),
        lines@[1]@ == listing_rule(),
        forall|i: int| 0 <= i < tasks@.len() ==> (#[trigger] lines@[i + 2])@ == task_line(tasks@[i]),
        lines@[tasks@.len() as int + 2]@ == listing_rule(),
{
    let mut lines: Vec<String> = Vec::new();
    lines.push(
        listing_line_exec("ID", "Name", "Priority", "Description", "Created On", "Completed On"),
    );
    lines.push(rule_exec());
    let mut i: usize = 0;
    while i < tasks.len()
        invariant
            i <= tasks.len(),
            lines@.len() == i + 2,
            lines@[0]@ == listing_header(),
            lines@[1]@ == listing_rule(),
            forall|j: int| 0 <= j < i ==> (#[trigger] lines@[j + 2])@ == task_line(tasks@[j]),
        decreases tasks.len() - i,
    {
        let t = &tasks[i];
        let id = i64_to_string(t.id);
        let desc = match &t.description {
            Some(d) => d.clone(),
            None => owned("NULL"),
        };
        let done = match &t.completed_on {
            Some(c) => c.clone(),
            None => owned("IN-PROGRESS"),
        };
        let line = listing_line_exec(
            id.as_str(),
            t.name.as_str(),
            t.priority.as_str(),
            desc.as_str(),
            t.created_on.as_str(),
            done.as_str(),
        );
        lines.push(line);
        i = i + 1;
    }
    lines.push(rule_exec());
    lines
}

/// The line printed after a statement on task `id` changed `changed` rows:
/// `success` when it changed one, a not-found notice when it changed none.
pub open spec fn changed_text(id: i64, changed: nat, success: Seq<char>) -> Seq<char> {
    if changed == 0 {
        "Task with id "@ + signed_decimal(id as int) + " not found"@
    } else {
        success
    }
}

fn changed_message(id: i64, changed: usize, success: &str) -> (m: String)
    ensures
        m@ == changed_text(id, changed as nat, success@),
{
    if changed == 0 {
        let t = i64_to_string(id);
        concat3("Task with id ", t.as_str(), " not found")
    } else {
        owned(success)
    }
}

/// The line printed after deleting task `id` removed `changed` rows.
pub fn delete_message(id: i64, changed: usize) -> (m: String)
    ensures
        m@ == changed_text(id, changed as nat, "Successfully deleted task"@),
{
    changed_message(id, changed, "Successfully deleted task")
}

/// The line printed after completing task `id` updated `changed` rows.
pub fn complete_message(id: i64, changed: usize) -> (m: String)
    ensures
        m@ == changed_text(id, changed as nat, "Successfully updated task"@),
{
    changed_message(id, changed, "Successfully updated task")
}

} // verus!
