//! Whole runs of a namespace: what holds after a sequence of events.

use crate::lifecycle::{setup_order, teardown_order, Action, Event, Lifecycle, Phase, STEP_COUNT, Step};
use vstd::prelude::*;

verus! {

/// The namespace after a sequence of events.
pub open spec fn run(start: Lifecycle, events: Seq<Event>) -> Lifecycle
    decreases events.len(),
{
    if events.len() == 0 {
        start
    } else {
        run(start, events.drop_last()).after(events.last())
    }
}

/// Lockfiles written minus lockfiles removed.
pub open spec fn balance(events: Seq<Event>) -> int
    decreases events.len(),
{
    if events.len() == 0 {
        0
    } else {
        balance(events.drop_last()) + match events.last() {
            Event::Attached => 1int,
            Event::Detached => -1int,
            _ => 0int,
        }
    }
}

/// `n` releases in a row.
pub open spec fn releases(n: int) -> Seq<Event> {
    Seq::new(n as nat, |i: int| Event::Released)
}

/// The steps released while a namespace drains, in the order of their
/// release.
pub open spec fn released_steps(s: Lifecycle) -> Seq<Step>
    decreases s.installed,
{
    if s.phase != Phase::Draining || s.installed < 1 || s.installed > STEP_COUNT {
        Seq::empty()
    } else {
        seq![setup_order()[s.installed - 1]] + released_steps(s.after(Event::Released))
    }
}

/// Whether a sequence of events only writes and removes lockfiles.
pub open spec fn only_locks(events: Seq<Event>) -> bool {
    forall|i: int|
        0 <= i < events.len() ==> (#[trigger] events[i]) == Event::Attached || events[i]
            == Event::Detached
}

/// Whatever happens, the phase, the installed steps and the lockfiles of a
/// namespace go on fitting together.
pub proof fn events_keep_well_formed(s: Lifecycle, event: Event)
    requires
        s.wf(),
    ensures
        s.after(event).wf(),
{
}

/// A setup only ever installs the step that follows those installed, and a
/// teardown only ever releases the last one installed.
pub proof fn steps_come_in_order(s: Lifecycle)
    requires
        s.wf(),
    ensures
        s.due() is Install ==> s.due() == Action::Install(setup_order()[s.installed as int]),
        s.due() is Release ==> s.due() == Action::Release(setup_order()[s.installed - 1]),
        s.due() is Install <==> (s.phase == Phase::Absent || s.phase == Phase::Claimed),
        s.due() is Release <==> s.phase == Phase::Draining,
{
}

/// Running one event is taking one step.
pub proof fn lemma_run_one(s: Lifecycle, event: Event)
    ensures
        run(s, seq![event]) == s.after(event),
{
    let one = seq![event];
    assert(one.drop_last() =~= Seq::<Event>::empty());
    assert(one.last() == event);
    assert(run(s, one.drop_last()) == s);
}

/// Running two sequences in a row is running their concatenation.
pub proof fn lemma_run_concat(s: Lifecycle, a: Seq<Event>, b: Seq<Event>)
    ensures
        run(s, a + b) == run(run(s, a), b),
    decreases b.len(),
{
    if b.len() == 0 {
        assert(a + b =~= a);
    } else {
        lemma_run_concat(s, a, b.drop_last());
        assert((a + b).drop_last() =~= a + b.drop_last());
        assert((a + b).last() == b.last());
    }
}

/// Where a draining namespace stands after `k` releases.
pub proof fn lemma_partial_drain(s: Lifecycle, k: int)
    requires
        s.wf(),
        s.phase == Phase::Draining,
        0 <= k <= s.installed,
    ensures
        run(s, releases(k)) == if k == s.installed {
            Lifecycle::absent()
        } else {
            Lifecycle { phase: Phase::Draining, installed: (s.installed - k) as u8, owners: 0 }
        },
    decreases k,
{
    if k > 0 {
        lemma_partial_drain(s, k - 1);
        assert(releases(k).drop_last() =~= releases(k - 1));
        assert(releases(k).last() == Event::Released);
    }
}

/// A draining namespace releases every installed step, last one first, and
/// nothing is left of it afterwards.
pub proof fn draining_releases_everything(s: Lifecycle)
    requires
        s.wf(),
        s.phase == Phase::Draining,
    ensures
        run(s, releases(s.installed as int)).leaves_nothing(),
        released_steps(s) == teardown_order(s.installed as int),
    decreases s.installed,
{
    lemma_partial_drain(s, s.installed as int);
    let n = s.installed as int;
    let next = s.after(Event::Released);
    if n > 1 {
        draining_releases_everything(next);
        assert(setup_order().take(n).reverse() =~= seq![setup_order()[n - 1]] + setup_order().take(
            n - 1,
        ).reverse());
        assert(setup_order().take(STEP_COUNT as int) =~= setup_order());
    } else {
        assert(released_steps(next) =~= Seq::<Step>::empty());
        assert(setup_order().take(1).reverse() =~= seq![setup_order()[0]]);
    }
}

/// After a failed setup nothing is left: whichever step fails, and also when
/// the tunnel does not come up, the steps installed so far are released in
/// reverse order and the namespace is absent again.
pub proof fn failed_setup_leaves_nothing(s: Lifecycle)
    requires
        s.wf(),
        s.phase == Phase::Absent || s.phase == Phase::Claimed || s.phase == Phase::Configured
            || s.phase == Phase::TunnelUp,
    ensures
        run(s, seq![Event::Failed] + releases(s.installed as int)).leaves_nothing(),
        released_steps(s.after(Event::Failed)) == teardown_order(s.installed as int),
{
    let failed = s.after(Event::Failed);
    let first = seq![Event::Failed];
    lemma_run_one(s, Event::Failed);
    lemma_run_concat(s, first, releases(s.installed as int));
    if s.phase == Phase::Absent {
        assert(releases(0) =~= Seq::<Event>::empty());
        assert(released_steps(failed) =~= Seq::<Step>::empty());
    } else {
        draining_releases_everything(failed);
    }
}

/// After the only attached application has gone nothing is left: its
/// lockfile is removed, every step is released in reverse order and the
/// namespace is absent again.
pub proof fn clean_exit_leaves_nothing(s: Lifecycle)
    requires
        s.wf(),
        s.phase == Phase::Attached,
        s.owners == 1,
    ensures
        s.after(Event::Detached).owners == 0,
        run(s, seq![Event::Detached] + releases(STEP_COUNT as int)).leaves_nothing(),
        released_steps(s.after(Event::Detached)) == setup_order().reverse(),
{
    let gone = s.after(Event::Detached);
    let first = seq![Event::Detached];
    lemma_run_one(s, Event::Detached);
    lemma_run_concat(s, first, releases(STEP_COUNT as int));
    draining_releases_everything(gone);
}

/// Lockfiles written minus lockfiles removed is at most the number of events.
pub proof fn lemma_balance_bounded(events: Seq<Event>)
    ensures
        -events.len() <= balance(events) <= events.len(),
    decreases events.len(),
{
    if events.len() > 0 {
        lemma_balance_bounded(events.drop_last());
    }
}

/// Where a shared namespace stands while applications come and go.
pub proof fn lemma_shared_prefix(s: Lifecycle, events: Seq<Event>, k: int)
    requires
        s.wf(),
        s.phase == Phase::TunnelUp,
        only_locks(events),
        events.len() <= u32::MAX,
        forall|j: int| 0 < j < events.len() ==> balance(#[trigger] events.take(j)) > 0,
        0 <= k < events.len(),
    ensures
        k == 0 ==> run(s, events.take(k)) == s,
        k > 0 ==> run(s, events.take(k)) == (Lifecycle {
            phase: Phase::Attached,
            installed: STEP_COUNT,
            owners: balance(events.take(k)) as u32,
        }),
    decreases k,
{
    if k == 0 {
        assert(events.take(0) =~= Seq::<Event>::empty());
    } else {
        lemma_shared_prefix(s, events, k - 1);
        let now = events.take(k);
        let before = events.take(k - 1);
        assert(now.drop_last() =~= before);
        assert(now.last() == events[k - 1]);
        lemma_balance_bounded(before);
        lemma_balance_bounded(now);
        assert(balance(now) > 0);
        if k == 1 {
            assert(before =~= Seq::<Event>::empty());
        } else {
            assert(balance(before) > 0);
        }
    }
}

/// Applications that share a namespace share one setup and one teardown.
///
/// Take a namespace whose tunnel is up, and any sequence of lockfiles being
/// written and removed in which the last removal is the first moment at which
/// none is left. Then as many lockfiles were written as removed; until that
/// last removal the namespace stays attached with every step installed, so
/// nothing is set up again and nothing is taken down; and with that removal
/// it starts to drain.
pub proof fn shared_namespace_drains_once(s: Lifecycle, events: Seq<Event>)
    requires
        s.wf(),
        s.phase == Phase::TunnelUp,
        only_locks(events),
        0 < events.len() <= u32::MAX,
        forall|j: int| 0 < j < events.len() ==> balance(#[trigger] events.take(j)) > 0,
        balance(events) == 0,
    ensures
        forall|j: int|
            0 < j < events.len() ==> (#[trigger] run(s, events.take(j))).phase == Phase::Attached
                && run(s, events.take(j)).installed == STEP_COUNT && run(
                s,
                events.take(j),
            ).due() == Action::Idle,
        run(s, events).phase == Phase::Draining,
        run(s, events).owners == 0,
        run(s, events).due() == Action::Release(Step::Tunnel),
        events.last() == Event::Detached,
{
    let n = events.len() as int;
    assert forall|j: int| 0 < j < n implies (#[trigger] run(s, events.take(j))).phase
        == Phase::Attached && run(s, events.take(j)).installed == STEP_COUNT && run(
        s,
        events.take(j),
    ).due() == Action::Idle by {
        lemma_shared_prefix(s, events, j);
    }
    lemma_shared_prefix(s, events, n - 1);
    let before = events.take(n - 1);
    assert(events.drop_last() =~= before);
    lemma_balance_bounded(before);
    if n == 1 {
        assert(before =~= Seq::<Event>::empty());
    } else {
        assert(balance(before) > 0);
    }
}

} // verus!
