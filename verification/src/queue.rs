//! Bookkeeping around the transaction queues: key names, priority scores,
//! 1-based positions and the processing time estimate.
//!
//! The queues themselves (a list and a sorted set) live in an outside store;
//! this module computes what the store is asked and what its replies mean.

use vstd::prelude::*;
use vstd::string::*;

use crate::text::same_text;

verus! {

/// The suffix that names the priority queue of a queue.
pub open spec fn priority_suffix() -> Seq<char> {
    seq!['_', 'p', 'r', 'i', 'o', 'r', 'i', 't', 'y']
}

/// The name of the priority queue (a sorted set) that belongs to `queue_name`.
pub open spec fn priority_queue_name_of(queue_name: Seq<char>) -> Seq<char> {
    queue_name + priority_suffix()
}

/// The integral part of an entry's score: a higher priority gives a lower
/// score, and lower scores are served first.
pub open spec fn base_score(priority: i32) -> int {
    1000 - priority
}

/// The time estimate for a queue position: 30 seconds per position, capped
/// at one hour.
pub open spec fn estimated_seconds(queue_position: int) -> int {
    if queue_position * 30 <= 3600 {
        queue_position * 30
    } else {
        3600
    }
}

/// The name of the priority queue of `queue_name`: the name and `_priority`.
pub fn priority_queue_name(queue_name: &str) -> (s: String)
    ensures
        s@ == priority_queue_name_of(queue_name@),
{
    let mut s = String::from_str(queue_name);
    proof {
        reveal_strlit("_priority");
        assert("_priority"@ =~= priority_suffix());
    }
    s.append("_priority");
    s
}

/// The integral part of the score of an entry of the given priority.
pub fn priority_base_score(priority: i32) -> (s: i32)
    requires
        base_score(priority) <= i32::MAX,
    ensures
        s == base_score(priority),
{
    1000 - priority
}

/// The 1-based position of an entry from its 0-based rank in the sorted set;
/// an entry that has no rank is reported at position 1.
pub fn position_from_rank(rank: Option<i64>) -> (p: i64)
    requires
        rank != Some(i64::MAX),
    ensures
        p == match rank {
            Some(r) => r + 1,
            None => 1,
        },
{
    match rank {
        Some(r) => r + 1,
        None => 1,
    }
}

/// The first of the entries that a pop returned, if any.
pub fn first_popped(popped: Vec<String>) -> (r: Option<String>)
    ensures
        popped@.len() == 0 ==> r is None,
        popped@.len() > 0 ==> r == Some(popped@[0]),
{
    if popped.len() == 0 {
        None
    } else {
        Some(popped[0].clone())
    }
}

/// The 1-based position of the first entry equal to `data` in a queue listed
/// front to back.
pub fn find_queue_position(items: &Vec<String>, data: &str) -> (r: Option<i64>)
    requires
        items@.len() <= i64::MAX,
    ensures
        match r {
            Some(p) => {
                &&& 1 <= p <= items@.len()
                &&& items@[p - 1]@ == data@
                &&& forall|j: int| 0 <= j < p - 1 ==> items@[j]@ != data@
            },
            None => forall|j: int| 0 <= j < items@.len() ==> items@[j]@ != data@,
        },
{
    let mut i: usize = 0;
    while i < items.len()
        invariant
            items@.len() <= i64::MAX,
            i <= items@.len(),
            forall|j: int| 0 <= j < i ==> items@[j]@ != data@,
        decreases items@.len() - i,
    {
        if same_text(items[i].as_str(), data) {
            return Some(i as i64 + 1);
        }
        i = i + 1;
    }
    None
}

/// Estimated seconds until a transaction at `queue_position` is processed.
pub fn estimated_processing_time(queue_position: i64) -> (t: i64)
    requires
        i64::MIN <= queue_position * 30 <= i64::MAX,
    ensures
        t == estimated_seconds(queue_position as int),
        t <= queue_position * 30,
        t <= 3600,
        t == queue_position * 30 || t == 3600,
{
    let scaled = queue_position * 30;
    if scaled <= 3600 {
        scaled
    } else {
        3600
    }
}

/// A later position never gets a shorter estimate, and an estimate of a
/// position that is not negative lies between 0 and 3600 seconds.
pub proof fn lemma_estimate_monotone(a: int, b: int)
    requires
        a <= b,
    ensures
        estimated_seconds(a) <= estimated_seconds(b),
        0 <= a ==> 0 <= estimated_seconds(a) <= 3600,
{
}

/// The estimate is 30 seconds per position up to position 120 and one hour
/// from there on: it is the smaller of `30 * p` and 3600.
pub proof fn lemma_estimate_is_capped_linear(p: int)
    ensures
        0 <= p <= 120 ==> estimated_seconds(p) == 30 * p,
        p >= 120 ==> estimated_seconds(p) == 3600,
        estimated_seconds(p) <= 30 * p,
        estimated_seconds(p) <= 3600,
        estimated_seconds(p) == 30 * p || estimated_seconds(p) == 3600,
        estimated_seconds(p + 1) - estimated_seconds(p) == (if p < 120 { 30int } else { 0int }),
{
}

/// A higher priority always gets a strictly lower base score, so it is served
/// before every lower priority.
pub proof fn lemma_priority_order(high: i32, low: i32)
    requires
        low < high,
    ensures
        base_score(high) < base_score(low),
{
}

/// Distinct queues have distinct priority queues.
pub proof fn lemma_priority_queue_names_distinct(a: Seq<char>, b: Seq<char>)
    requires
        a != b,
    ensures
        priority_queue_name_of(a) != priority_queue_name_of(b),
{
    if priority_queue_name_of(a) == priority_queue_name_of(b) {
        assert(priority_queue_name_of(a).take(a.len() as int) =~= a);
        assert(priority_queue_name_of(b).take(b.len() as int) =~= b);
        assert(a.len() == b.len());
    }
}

} // verus!
