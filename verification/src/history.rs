//! Rolling histories that keep only their most recent entries.

use std::collections::VecDeque;
use vstd::prelude::*;

verus! {

/// Number of messages kept in the activity log.
pub const MAX_LOG_ENTRIES: usize = 8;

/// `log` with `item` appended after dropping the oldest entry when the log
/// already holds `cap` or more entries.
pub open spec fn spec_push_capped<T>(log: Seq<T>, item: T, cap: nat) -> Seq<T> {
    if log.len() >= cap && log.len() > 0 {
        log.drop_first().push(item)
    } else {
        log.push(item)
    }
}

/// Appends `item` to `log`, first dropping the oldest entry when the log
/// already holds `cap` or more entries.
pub fn push_capped<T>(log: &mut VecDeque<T>, item: T, cap: usize)
    ensures
        final(log)@ == spec_push_capped(old(log)@, item, cap as nat),
{
    broadcast use vstd::std_specs::vecdeque::group_vec_dequeue_axioms;

    if log.len() >= cap {
        log.pop_front();
    }
    log.push_back(item);
}

/// A capped history never grows past its cap once within it, always ends with
/// the newest entry, and keeps the entries before it in order, losing at most
/// the oldest one.
pub proof fn lemma_push_capped_bounded<T>(log: Seq<T>, item: T, cap: nat)
    requires
        cap >= 1,
        log.len() <= cap,
    ensures
        MAX_LOG_ENTRIES == 8,
        spec_push_capped(log, item, cap).len() <= cap,
        spec_push_capped(log, item, cap).last() == item,
        spec_push_capped(log, item, cap).drop_last() == if log.len() == cap {
            log.drop_first()
        } else {
            log
        },
{
    assert(log.drop_first().push(item).drop_last() =~= log.drop_first());
    assert(log.push(item).drop_last() =~= log);
}

} // verus!
