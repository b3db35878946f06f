//! Processes and their parents: which processes stand at the top, and which
//! are the children of one.

use crate::units::left_of;
use vstd::prelude::*;

verus! {

/// What the system reports of one process and its parent.
#[derive(Clone, Copy, Debug, PartialEq, Eq, Structural)]
pub struct ProcessEntry {
    /// The process's id.
    pub pid: u32,
    /// The id of its parent, where it has one.
    pub parent: Option<u32>,
}

/// Whether a process of the given id is among `entries`.
pub open spec fn is_listed(entries: Seq<ProcessEntry>, pid: u32) -> bool {
    exists|j: int| 0 <= j < entries.len() && (#[trigger] entries[j]).pid == pid
}

/// Whether the process at place `i` stands at the top: whether it has no
/// parent, or none that is listed.
pub open spec fn is_root(entries: Seq<ProcessEntry>, i: int) -> bool {
    match entries[i].parent {
        Some(parent) => !is_listed(entries, parent),
        None => true,
    }
}

/// Whether the process at place `i` is a child of the process `pid`.
pub open spec fn is_child(entries: Seq<ProcessEntry>, i: int, pid: u32) -> bool {
    entries[i].parent == Some(pid)
}

/// The places below `n` that meet `p`, in rising order.
pub open spec fn selected(n: nat, p: spec_fn(int) -> bool) -> Seq<usize>
    decreases n,
{
    if n == 0 {
        seq![]
    } else if p(n - 1) {
        selected((n - 1) as nat, p).push((n - 1) as usize)
    } else {
        selected((n - 1) as nat, p)
    }
}

/// `selected` lists exactly the places that meet `p`, without gaps and in
/// rising order.
pub proof fn lemma_selected(n: nat, p: spec_fn(int) -> bool)
    requires
        n <= usize::MAX,
    ensures
        forall|k: int| 0 <= k < selected(n, p).len() ==> (#[trigger] selected(n, p)[k]) < n && p(
            selected(n, p)[k] as int,
        ),
        forall|i: int| 0 <= i < n && #[trigger] p(i) ==> selected(n, p).contains(i as usize),
        forall|a: int, b: int|
            0 <= a < b < selected(n, p).len() ==> selected(n, p)[a] < selected(n, p)[b],
    decreases n,
{
    if n > 0 {
        let before = selected((n - 1) as nat, p);
        lemma_selected((n - 1) as nat, p);
        let now = selected(n, p);
        assert forall|i: int| 0 <= i < n && #[trigger] p(i) implies now.contains(i as usize) by {
            if i < n - 1 {
                let k = choose|k: int| 0 <= k < before.len() && before[k] == i as usize;
                assert(now[k] == i as usize);
            } else {
                assert(now[now.len() - 1] == i as usize);
            }
        }
    }
}

/// The condition, on a place, of holding a process that stands at the top.
pub open spec fn root_in(entries: Seq<ProcessEntry>) -> spec_fn(int) -> bool {
    |i: int| is_root(entries, i)
}

/// The condition, on a place, of holding a child of the process `pid`.
pub open spec fn child_in(entries: Seq<ProcessEntry>, pid: u32) -> spec_fn(int) -> bool {
    |i: int| is_child(entries, i, pid)
}

/// Tests whether a process of the given id is among `entries`.
pub fn has_process(entries: &Vec<ProcessEntry>, pid: u32) -> (b: bool)
    ensures
        b == is_listed(entries@, pid),
{
    let n: usize = entries.len();
    let mut j: usize = 0;
    while j < n
        invariant
            n == entries@.len(),
            j <= n,
            forall|k: int| 0 <= k < j ==> (#[trigger] entries@[k]).pid != pid,
        decreases n - j,
    {
        if entries[j].pid == pid {
            return true;
        }
        j += 1;
    }
    false
}

/// Lists the places of the processes that stand at the top.
pub fn roots(entries: &Vec<ProcessEntry>) -> (places: Vec<usize>)
    ensures
        places@ == selected(entries@.len(), root_in(entries@)),
{
    let n: usize = entries.len();
    let mut places: Vec<usize> = Vec::new();
    let mut i: usize = 0;
    while i < n
        invariant
            n == entries@.len(),
            i <= n,
            places@ == selected(i as nat, root_in(entries@)),
        decreases n - i,
    {
        let top = match entries[i].parent {
            Some(parent) => !has_process(entries, parent),
            None => true,
        };
        if top {
            places.push(i);
        }
        i += 1;
    }
    places
}

/// Lists the places of the children of the process `pid`.
pub fn children(entries: &Vec<ProcessEntry>, pid: u32) -> (places: Vec<usize>)
    ensures
        places@ == selected(entries@.len(), child_in(entries@, pid)),
{
    let n: usize = entries.len();
    let mut places: Vec<usize> = Vec::new();
    let mut i: usize = 0;
    while i < n
        invariant
            n == entries@.len(),
            i <= n,
            places@ == selected(i as nat, child_in(entries@, pid)),
        decreases n - i,
    {
        let child = match entries[i].parent {
            Some(parent) => parent == pid,
            None => false,
        };
        if child {
            places.push(i);
        }
        i += 1;
    }
    places
}

/// For how long a process has run: the time from its start to now, in
/// seconds, and nothing where its start lies after now.
pub fn run_time(now: u64, start_time: u64) -> (seconds: u64)
    ensures
        seconds == left_of(now, start_time),
{
    now.saturating_sub(start_time)
}

} // verus!
