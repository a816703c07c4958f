//! Laws on the profiling of workers, and on the table that it is kept in.
use crate::json::{json_view, write_member};
use crate::laws::words::under;
use crate::profiling::{actions_view, ProfilingAction};
use crate::router::VllmPDRouter;
use crate::table::Table;
use serde_json::Value;
use vstd::prelude::*;

verus! {

/// Whether nothing of a router but its tasks has changed.
pub open spec fn keeps_its_settings(before: VllmPDRouter, after: VllmPDRouter) -> bool {
    &&& after@.use_discovery == before@.use_discovery
    &&& after@.enable_profiling == before@.enable_profiling
    &&& after@.profile_timeout_secs == before@.profile_timeout_secs
    &&& after@.intra_node_data_parallel_size == before@.intra_node_data_parallel_size
}

/// A start on a worker starts it, sets up its task with the router's time, and aborts the task that
/// the worker had; it leaves the tasks of the others alone. Where workers are not profiled, it does
/// nothing.
pub proof fn law_a_start_sets_one_task(
    router: &mut VllmPDRouter,
    url: &str,
    task: u64,
    actions: Vec<ProfilingAction<String>>,
    other: Seq<char>,
)
    requires
        old(router).wf(),
        other != url@,
        call_ensures(VllmPDRouter::start_profiling, (router, url, task), actions),
    ensures
        keeps_its_settings(*old(router), *final(router)),
        ({
            let before = old(router)@.profiling_tasks;
            let after = final(router)@.profiling_tasks;
            if old(router)@.enable_profiling {
                &&& after.contains_key(url@) && after[url@] == task
                &&& after.contains_key(other) == before.contains_key(other)
                &&& before.contains_key(other) ==> after[other] == before[other]
                &&& actions@.len() == if before.contains_key(url@) {
                    3nat
                } else {
                    2
                }
                &&& actions@[0]@ == ProfilingAction::StartWorker(url@)
                &&& actions@[1]@ == (ProfilingAction::SetTimer {
                    url: url@,
                    seconds: old(router)@.profile_timeout_secs,
                    task,
                })
                &&& before.contains_key(url@) ==> actions@[2]@ == (ProfilingAction::AbortTimer {
                    url: url@,
                    task: before[url@],
                })
            } else {
                after == before && actions@.len() == 0
            }
        }),
{
    let seen = actions_view(actions@);
    assert(seen.len() == actions@.len());
    assert(forall|i: int| 0 <= i < seen.len() ==> #[trigger] seen[i] == actions@[i]@);
    if old(router)@.enable_profiling {
        assert(seen[0] == actions@[0]@ && seen[1] == actions@[1]@);
        if old(router)@.profiling_tasks.contains_key(url@) {
            assert(seen[2] == actions@[2]@);
        }
    }
}

/// A stop on a worker aborts its task, if it has one, and then stops the worker; it leaves the tasks
/// of the others alone. Where workers are not profiled, it does nothing.
pub proof fn law_a_stop_leaves_no_task(
    router: &mut VllmPDRouter,
    url: &str,
    actions: Vec<ProfilingAction<String>>,
    other: Seq<char>,
)
    requires
        old(router).wf(),
        other != url@,
        call_ensures(VllmPDRouter::stop_profiling, (router, url), actions),
    ensures
        keeps_its_settings(*old(router), *final(router)),
        ({
            let before = old(router)@.profiling_tasks;
            let after = final(router)@.profiling_tasks;
            if old(router)@.enable_profiling {
                &&& !after.contains_key(url@)
                &&& after.contains_key(other) == before.contains_key(other)
                &&& before.contains_key(other) ==> after[other] == before[other]
                &&& if before.contains_key(url@) {
                    &&& actions@.len() == 2
                    &&& actions@[0]@ == (ProfilingAction::AbortTimer {
                        url: url@,
                        task: before[url@],
                    })
                    &&& actions@[1]@ == ProfilingAction::StopWorker(url@)
                } else {
                    &&& actions@.len() == 1
                    &&& actions@[0]@ == ProfilingAction::StopWorker(url@)
                }
            } else {
                after == before && actions@.len() == 0
            }
        }),
{
    let seen = actions_view(actions@);
    assert(seen.len() == actions@.len());
    assert(forall|i: int| 0 <= i < seen.len() ==> #[trigger] seen[i] == actions@[i]@);
    if old(router)@.enable_profiling {
        assert(seen[0] == actions@[0]@);
        if old(router)@.profiling_tasks.contains_key(url@) {
            assert(seen[1] == actions@[1]@);
        }
    }
}

/// A worker whose time is up is stopped and has no task any more; the tasks of the others are left
/// alone.
pub proof fn law_a_timeout_stops_the_worker(
    router: &mut VllmPDRouter,
    url: &str,
    actions: Vec<ProfilingAction<String>>,
    other: Seq<char>,
)
    requires
        old(router).wf(),
        other != url@,
        call_ensures(VllmPDRouter::profiling_timed_out, (router, url), actions),
    ensures
        keeps_its_settings(*old(router), *final(router)),
        actions@.len() == 1,
        actions@[0]@ == ProfilingAction::StopWorker(url@),
        ({
            let before = old(router)@.profiling_tasks;
            let after = final(router)@.profiling_tasks;
            &&& !after.contains_key(url@)
            &&& after.contains_key(other) == before.contains_key(other)
            &&& before.contains_key(other) ==> after[other] == before[other]
        }),
{
    let seen = actions_view(actions@);
    assert(seen.len() == actions@.len());
    assert(seen[0] == actions@[0]@);
}

/// What is put into a table is taken out of it again, in place of what was there before; and
/// neither touches what stands under another text.
pub proof fn law_tables_give_back<V>(
    table: &mut Table<V>,
    key: String,
    value: V,
    replaced: Option<V>,
    later: &mut Table<V>,
    text: &str,
    taken: Option<V>,
    other: Seq<char>,
)
    requires
        old(table).wf(),
        old(later).wf(),
        other != key@,
        text@ == key@,
        call_ensures(Table::<V>::insert, (table, key, value), replaced),
        old(later)@ == final(table)@,
        call_ensures(Table::<V>::remove, (later, text), taken),
    ensures
        taken == Some(value),
        replaced is Some <==> old(table)@.contains_key(key@),
        replaced matches Some(earlier) ==> old(table)@[key@] == earlier,
        !final(later)@.contains_key(key@),
        final(later)@.contains_key(other) == old(table)@.contains_key(other),
        old(table)@.contains_key(other) ==> final(later)@[other] == old(table)@[other],
{
}

/// Every entry is a text of the table with its value, and no text comes twice.
pub proof fn law_entries_are_of_the_table<V>(
    table: Table<V>,
    entries: Vec<(String, V)>,
    i: int,
    j: int,
)
    requires
        table.wf(),
        call_ensures(Table::<V>::into_entries, (table,), entries),
        0 <= i < entries@.len(),
        0 <= j < entries@.len(),
    ensures
        entries@[i].0@ == entries@[j].0@ ==> i == j,
        table@.contains_key(entries@[i].0@) && table@[entries@[i].0@] == entries@[i].1,
{
}

/// A member is written into an object, or into null, which becomes one, and into nothing else; the
/// other members are left alone.
pub proof fn law_members_are_written(
    value: &mut Value,
    key: &str,
    member: Value,
    other: Seq<char>,
)
    requires
        other != key@,
        call_ensures(write_member, (value, key, member), ()),
    ensures
        ({
            let before = json_view(*old(value));
            let after = json_view(*final(value));
            if before is Object || before is Null {
                &&& after is Object
                &&& under(after, key@) == Some(json_view(member))
                &&& under(after, other) == under(before, other)
            } else {
                after == before
            }
        }),
{
}

} // verus!
