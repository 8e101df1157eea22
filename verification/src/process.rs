//! Liveness of a named process, decided from a listing of the process table.

use crate::text::{lines, lines_of, texts};
use vstd::prelude::*;

verus! {

/// Whether a process-table listing, one command name per line, holds `name`
/// exactly. A listing that could not be had counts as "not running".
pub open spec fn listed(table: Option<Seq<char>>, name: Seq<char>) -> bool {
    match table {
        Some(text) => lines_of(text).contains(name),
        None => false,
    }
}

/// Whether one of the entries equals `name` exactly.
pub fn names_process(entries: &[String], name: &str) -> (found: bool)
    ensures
        found == texts(entries@).contains(name@),
{
    let wanted = name.to_owned();
    let mut i: usize = 0;
    while i < entries.len()
        invariant
            i <= entries.len(),
            wanted@ == name@,
            forall|k: int| 0 <= k < i ==> (#[trigger] texts(entries@)[k]) != name@,
        decreases entries.len() - i,
    {
        if entries[i] == wanted {
            assert(texts(entries@)[i as int] == name@);
            return true;
        }
        i += 1;
    }
    false
}

/// Decides liveness from the output of the process-table query: `None` where
/// the query failed, else its text with one command name per line. The name
/// must equal a whole line; paths are not normalised.
pub fn is_process_running(table: Option<&str>, name: &str) -> (running: bool)
    ensures
        running == listed(
            match table {
                Some(text) => Some(text@),
                None => None,
            },
            name@,
        ),
{
    match table {
        Some(text) => {
            let entries = lines(text);
            names_process(entries.as_slice(), name)
        },
        None => false,
    }
}

} // verus!
