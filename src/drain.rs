//! Successive sweeps of one pool, and what they report together.
use vstd::prelude::*;

use crate::pool::{
    child_events, is_terminal, status_event, survivors, sweep_events, CheckerResult, ChildStatus,
    ProcessHandle,
};

verus! {

/// Each round of statuses covers exactly the pool that the round sweeps.
pub open spec fn rounds_fit<H>(
    handles: Seq<ProcessHandle<H>>,
    rounds: Seq<Seq<ChildStatus>>,
) -> bool
    decreases rounds.len(),
{
    rounds.len() == 0 || (rounds[0].len() == handles.len() && rounds_fit(
        survivors(handles, rounds[0]),
        rounds.drop_first(),
    ))
}

/// The pool left after sweeping with each round in turn.
pub open spec fn remaining<H>(
    handles: Seq<ProcessHandle<H>>,
    rounds: Seq<Seq<ChildStatus>>,
) -> Seq<ProcessHandle<H>>
    decreases rounds.len(),
{
    if rounds.len() == 0 {
        handles
    } else {
        remaining(survivors(handles, rounds[0]), rounds.drop_first())
    }
}

/// Everything reported by sweeping with each round in turn.
pub open spec fn drain_events<H>(
    handles: Seq<ProcessHandle<H>>,
    rounds: Seq<Seq<ChildStatus>>,
) -> Seq<CheckerResult>
    decreases rounds.len(),
{
    if rounds.len() == 0 {
        Seq::empty()
    } else {
        sweep_events(handles, rounds[0]) + drain_events(
            survivors(handles, rounds[0]),
            rounds.drop_first(),
        )
    }
}

/// How many `Ended` events a sequence of events holds.
pub open spec fn ended_count(events: Seq<CheckerResult>) -> nat
    decreases events.len(),
{
    if events.len() == 0 {
        0
    } else {
        ended_count(events.drop_last()) + if events.last() is Ended {
            1nat
        } else {
            0nat
        }
    }
}

/// The child an event reports on, if it reports on one.
pub open spec fn event_pid(event: CheckerResult) -> Option<u32> {
    match event {
        CheckerResult::ChildLog(pid, _) => Some(pid),
        CheckerResult::ChildExited(pid, _) => Some(pid),
        CheckerResult::ChildErrored(pid, _) => Some(pid),
        _ => None,
    }
}

pub open spec fn pids_distinct<H>(handles: Seq<ProcessHandle<H>>) -> bool {
    forall|a: int, b: int|
        0 <= a < handles.len() && 0 <= b < handles.len() && a != b ==> handles[a].pid
            != handles[b].pid
}

pub open spec fn has_pid<H>(handles: Seq<ProcessHandle<H>>, pid: u32) -> bool {
    exists|j: int| 0 <= j < handles.len() && handles[j].pid == pid
}

proof fn lemma_ended_count_add(a: Seq<CheckerResult>, b: Seq<CheckerResult>)
    ensures
        ended_count(a + b) == ended_count(a) + ended_count(b),
    decreases b.len(),
{
    if b.len() > 0 {
        lemma_ended_count_add(a, b.drop_last());
        assert((a + b).drop_last() =~= a + b.drop_last());
    } else {
        assert(a + b =~= a);
    }
}

proof fn lemma_child_events_never_end<H>(
    handles: Seq<ProcessHandle<H>>,
    statuses: Seq<ChildStatus>,
)
    requires
        statuses.len() == handles.len(),
    ensures
        ended_count(child_events(handles, statuses)) == 0,
    decreases handles.len(),
{
    if handles.len() > 0 {
        lemma_child_events_never_end(handles.drop_last(), statuses.drop_last());
        let e = status_event(handles.last().pid, statuses.last());
        lemma_ended_count_add(child_events(handles.drop_last(), statuses.drop_last()), e);
        if e.len() == 1 {
            assert(e.drop_last() =~= Seq::<CheckerResult>::empty());
            assert(ended_count(e.drop_last()) == 0);
            assert(!(e.last() is Ended));
            assert(ended_count(e) == 0);
        } else {
            assert(ended_count(e) == 0);
        }
    }
}

/// Every child that survives a sweep was in the pool, under a running status.
proof fn lemma_survivor_origin<H>(
    handles: Seq<ProcessHandle<H>>,
    statuses: Seq<ChildStatus>,
    m: int,
)
    requires
        statuses.len() == handles.len(),
        0 <= m < survivors(handles, statuses).len(),
    ensures
        exists|j: int|
            0 <= j < handles.len() && !is_terminal(statuses[j]) && handles[j] == survivors(
                handles,
                statuses,
            )[m],
    decreases handles.len(),
{
    let kept = survivors(handles.drop_last(), statuses.drop_last());
    if m < kept.len() {
        lemma_survivor_origin(handles.drop_last(), statuses.drop_last(), m);
        let j = choose|j: int|
            0 <= j < handles.drop_last().len() && !is_terminal(statuses.drop_last()[j])
                && handles.drop_last()[j] == kept[m];
        assert(handles[j] == handles.drop_last()[j]);
        assert(statuses[j] == statuses.drop_last()[j]);
    } else {
        let last = handles.len() - 1;
        assert(handles[last] == survivors(handles, statuses)[m]);
    }
}

/// A sweep's events name only children of the swept pool.
proof fn lemma_sweep_names_pool<H>(
    handles: Seq<ProcessHandle<H>>,
    statuses: Seq<ChildStatus>,
    k: int,
)
    requires
        statuses.len() == handles.len(),
        0 <= k < child_events(handles, statuses).len(),
        event_pid(child_events(handles, statuses)[k]) is Some,
    ensures
        has_pid(handles, event_pid(child_events(handles, statuses)[k])->0),
    decreases handles.len(),
{
    let front = child_events(handles.drop_last(), statuses.drop_last());
    let pid = event_pid(child_events(handles, statuses)[k])->0;
    if k < front.len() {
        lemma_sweep_names_pool(handles.drop_last(), statuses.drop_last(), k);
        let j = choose|j: int|
            0 <= j < handles.drop_last().len() && handles.drop_last()[j].pid == pid;
        assert(handles[j].pid == pid);
    } else {
        assert(handles[handles.len() - 1].pid == pid);
    }
}

/// A drain's events name only children of the pool it starts from.
proof fn lemma_drain_names_pool<H>(
    handles: Seq<ProcessHandle<H>>,
    rounds: Seq<Seq<ChildStatus>>,
    k: int,
)
    requires
        rounds_fit(handles, rounds),
        0 <= k < drain_events(handles, rounds).len(),
        event_pid(drain_events(handles, rounds)[k]) is Some,
    ensures
        has_pid(handles, event_pid(drain_events(handles, rounds)[k])->0),
    decreases rounds.len(),
{
    let first = sweep_events(handles, rounds[0]);
    let kept = survivors(handles, rounds[0]);
    let pid = event_pid(drain_events(handles, rounds)[k])->0;
    if k < first.len() {
        let ce = child_events(handles, rounds[0]);
        if k >= ce.len() {
            assert(first[k] is Ended);
        }
        assert(first[k] == ce[k]);
        lemma_sweep_names_pool(handles, rounds[0], k);
    } else {
        lemma_drain_names_pool(kept, rounds.drop_first(), k - first.len());
        let m = choose|m: int| 0 <= m < kept.len() && kept[m].pid == pid;
        lemma_survivor_origin(handles, rounds[0], m);
    }
}

/// Sweeping an empty pool, any number of times, reports nothing and leaves
/// the pool empty.
pub proof fn lemma_empty_pool_stays_quiet<H>(
    handles: Seq<ProcessHandle<H>>,
    rounds: Seq<Seq<ChildStatus>>,
)
    requires
        handles.len() == 0,
        rounds_fit(handles, rounds),
    ensures
        drain_events(handles, rounds).len() == 0,
        remaining(handles, rounds).len() == 0,
    decreases rounds.len(),
{
    if rounds.len() > 0 {
        let kept = survivors(handles, rounds[0]);
        assert(kept.len() == 0);
        lemma_empty_pool_stays_quiet(kept, rounds.drop_first());
        assert(sweep_events(handles, rounds[0]) =~= Seq::<CheckerResult>::empty());
        assert(drain_events(handles, rounds) =~= drain_events(kept, rounds.drop_first()));
    }
}

/// A sweep in which every child is found ended or failed leaves the pool
/// empty.
pub proof fn lemma_all_ended_empties_pool<H>(
    handles: Seq<ProcessHandle<H>>,
    statuses: Seq<ChildStatus>,
)
    requires
        statuses.len() == handles.len(),
        forall|i: int| 0 <= i < statuses.len() ==> is_terminal(#[trigger] statuses[i]),
    ensures
        survivors(handles, statuses).len() == 0,
    decreases handles.len(),
{
    if handles.len() > 0 {
        let s = statuses.drop_last();
        assert forall|i: int| 0 <= i < s.len() implies is_terminal(#[trigger] s[i]) by {
            assert(s[i] == statuses[i]);
        }
        lemma_all_ended_empties_pool(handles.drop_last(), s);
        assert(is_terminal(statuses[statuses.len() - 1]));
    }
}

/// Draining a pool of one or more children, over any number of sweeps:
/// once the pool is empty, exactly one `Ended` has been reported, not one
/// per child.
pub proof fn lemma_drain_ends_once<H>(
    handles: Seq<ProcessHandle<H>>,
    rounds: Seq<Seq<ChildStatus>>,
)
    requires
        handles.len() > 0,
        rounds_fit(handles, rounds),
        remaining(handles, rounds).len() == 0,
    ensures
        ended_count(drain_events(handles, rounds)) == 1,
    decreases rounds.len(),
{
    let statuses = rounds[0];
    let kept = survivors(handles, statuses);
    let rest = rounds.drop_first();
    let ce = child_events(handles, statuses);
    lemma_child_events_never_end(handles, statuses);
    if kept.len() == 0 {
        lemma_empty_pool_stays_quiet(kept, rest);
        assert(drain_events(kept, rest) =~= Seq::<CheckerResult>::empty());
        lemma_ended_count_add(ce, seq![CheckerResult::Ended]);
        assert(seq![CheckerResult::Ended].drop_last() =~= Seq::<CheckerResult>::empty());
        lemma_ended_count_add(sweep_events(handles, statuses), drain_events(kept, rest));
    } else {
        lemma_drain_ends_once(kept, rest);
        assert(sweep_events(handles, statuses) =~= ce);
        lemma_ended_count_add(sweep_events(handles, statuses), drain_events(kept, rest));
    }
}

/// A child that a sweep found ended, or could not check, has left the pool:
/// no later sweep reports anything about it. Children are told apart by
/// their process identifiers, which differ within one pool.
pub proof fn lemma_gone_child_stays_silent<H>(
    handles: Seq<ProcessHandle<H>>,
    rounds: Seq<Seq<ChildStatus>>,
    i: int,
)
    requires
        rounds.len() > 0,
        rounds_fit(handles, rounds),
        pids_distinct(handles),
        0 <= i < handles.len(),
        is_terminal(rounds[0][i]),
    ensures
        forall|k: int|
            0 <= k < drain_events(survivors(handles, rounds[0]), rounds.drop_first()).len()
                ==> event_pid(
                #[trigger] drain_events(survivors(handles, rounds[0]), rounds.drop_first())[k],
            ) != Some(handles[i].pid),
{
    let kept = survivors(handles, rounds[0]);
    let later = drain_events(kept, rounds.drop_first());
    assert forall|k: int| 0 <= k < later.len() implies event_pid(#[trigger] later[k]) != Some(
        handles[i].pid,
    ) by {
        if event_pid(later[k]) == Some(handles[i].pid) {
            lemma_drain_names_pool(kept, rounds.drop_first(), k);
            let m = choose|m: int| 0 <= m < kept.len() && kept[m].pid == handles[i].pid;
            lemma_survivor_origin(handles, rounds[0], m);
            let j = choose|j: int|
                0 <= j < handles.len() && !is_terminal(rounds[0][j]) && handles[j] == kept[m];
            assert(j != i);
        }
    }
}

/// A child added before a poll is checked by that poll: its own status
/// decides its report, which follows those of the children that joined
/// before it, and it stays exactly when it is still running.
pub proof fn lemma_new_child_swept<H>(
    handles: Seq<ProcessHandle<H>>,
    child: ProcessHandle<H>,
    statuses: Seq<ChildStatus>,
)
    requires
        statuses.len() == handles.len() + 1,
    ensures
        child_events(handles.push(child), statuses) == child_events(
            handles,
            statuses.drop_last(),
        ) + status_event(child.pid, statuses.last()),
        survivors(handles.push(child), statuses) == if is_terminal(statuses.last()) {
            survivors(handles, statuses.drop_last())
        } else {
            survivors(handles, statuses.drop_last()).push(child)
        },
{
    assert(handles.push(child).drop_last() =~= handles);
}

} // verus!
