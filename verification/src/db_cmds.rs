//! The database commands of the `.env` based front end: what they print for
//! the outcome of the file operations of [`crate::persistent`].
use vstd::prelude::*;
use crate::text::{concat2, owned, sort_texts, sorted_texts, texts};

verus! {

/// The line printed after adding database `name`: whether its file was created
/// or already existed.
pub fn db_add(name: &str, created: bool) -> (m: String)
    ensures
        created ==> m@ == "Successfully created database with name: "@ + name@,
        !created ==> m@ == "The database by the name "@ + name@ + " already exists"@,
{
    if created {
        concat2("Successfully created database with name: ", name)
    } else {
        let mut m = concat2("The database by the name ", name);
        m.append(" already exists");
        m
    }
}

/// The line printed after deleting database `name`: whether its file was removed.
pub fn db_delete(name: &str, removed: bool) -> (m: String)
    ensures
        removed ==> m@ == "Successfully deleted database"@,
        !removed ==> m@ == "No database exists with the name: "@ + name@,
{
    if removed {
        owned("Successfully deleted database")
    } else {
        concat2("No database exists with the name: ", name)
    }
}

/// The lines printed by `db_list`: a heading, then `Name: <name>` for each
/// database, in alphabetical order.
pub fn db_list(names: &Vec<String>) -> (lines: Vec<String>)
    ensures
        lines@.len() == names@.len() + 1,
        lines@[0]@ == "----Databases-----"@,
        exists|sorted: Seq<Seq<char>>|
            {
                &&& sorted_texts(sorted)
                &&& sorted.to_multiset() == texts(names@).to_multiset()
                &&& sorted.len() == names@.len()
                &&& forall|i: int|
                    0 <= i < sorted.len() ==> (#[trigger] lines@[i + 1])@ == "Name: "@ + sorted[i]
            },
{
    let sorted = sort_texts(names);
    let mut lines: Vec<String> = Vec::new();
    lines.push(owned("----Databases-----"));
    let mut i: usize = 0;
    proof {
        vstd::seq_lib::to_multiset_len(texts(sorted@));
        vstd::seq_lib::to_multiset_len(texts(names@));
        assert(texts(sorted@).len() == texts(names@).len());
    }
    while i < sorted.len()
        invariant
            i <= sorted.len(),
            lines@.len() == i + 1,
            lines@[0]@ == "----Databases-----"@,
            forall|j: int| 0 <= j < i ==> (#[trigger] lines@[j + 1])@ == "Name: "@ + texts(sorted@)[j],
        decreases sorted.len() - i,
    {
        lines.push(concat2("Name: ", sorted[i].as_str()));
        i = i + 1;
    }
    lines
}

/// The line printed after setting the current database to `name`: whether
/// the database existed.
pub fn db_set(name: &str, updated: bool) -> (m: String)
    ensures
        updated ==> m@ == "Successfully set database to "@ + name@,
        !updated ==> m@ == "No database exists with the name: "@ + name@,
{
    if updated {
        concat2("Successfully set database to ", name)
    } else {
        concat2("No database exists with the name: ", name)
    }
}

} // verus!
