//! What holds of every run of the retrieval state machine.
//!
//! A run is a start state and a sequence of events; its trace is every action
//! issued on the way, in order. The laws below are stated over
//! [`run`] and are proved for all start states and all event sequences.

use crate::retrieval::{
    initial, is_terminal, retry, run, step, ActionView, EventView, MachineView, StateView,
    RETRY_BACKOFF_SECS,
};
use vstd::prelude::*;

verus! {

/// How often `trace` asks to bootstrap.
pub open spec fn bootstraps(trace: Seq<ActionView>) -> nat
    decreases trace.len(),
{
    if trace.len() == 0 {
        0
    } else {
        bootstraps(trace.drop_last()) + if trace.last() is Bootstrap {
            1nat
        } else {
            0nat
        }
    }
}

/// The seconds that `trace` spends waiting.
pub open spec fn waited(trace: Seq<ActionView>) -> nat
    decreases trace.len(),
{
    if trace.len() == 0 {
        0
    } else {
        waited(trace.drop_last()) + match trace.last() {
            ActionView::Wait(seconds) => seconds,
            _ => 0nat,
        }
    }
}

/// `n` failed lookups in a row.
pub open spec fn failures(n: nat) -> Seq<EventView> {
    Seq::new(n, |i: int| EventView::QueryFailed)
}

/// `n` retries of the lookup for `key`, each after the backoff.
pub open spec fn retries(key: Seq<u8>, n: nat) -> Seq<ActionView>
    decreases n,
{
    if n == 0 {
        seq![]
    } else {
        retries(key, (n - 1) as nat) + retry(key)
    }
}

/// The place of a state in the order in which a retrieval passes through its
/// states.
pub open spec fn rank(state: StateView) -> nat {
    match state {
        StateView::Idle => 0,
        StateView::Bootstrapping => 1,
        StateView::AwaitingQueryResult => 2,
        StateView::Found(_) => 3,
        StateView::Exhausted => 3,
    }
}

proof fn lemma_bootstraps_concat(a: Seq<ActionView>, b: Seq<ActionView>)
    ensures
        bootstraps(a + b) == bootstraps(a) + bootstraps(b),
    decreases b.len(),
{
    if b.len() == 0 {
        assert(a + b =~= a);
    } else {
        assert((a + b).drop_last() =~= a + b.drop_last());
        lemma_bootstraps_concat(a, b.drop_last());
    }
}

proof fn lemma_waited_concat(a: Seq<ActionView>, b: Seq<ActionView>)
    ensures
        waited(a + b) == waited(a) + waited(b),
    decreases b.len(),
{
    if b.len() == 0 {
        assert(a + b =~= a);
    } else {
        assert((a + b).drop_last() =~= a + b.drop_last());
        lemma_waited_concat(a, b.drop_last());
    }
}

proof fn lemma_step_shapes(m: MachineView, event: EventView)
    ensures
        step(m, event).0.key == m.key,
        ({
            let actions = step(m, event).1;
            ||| actions == Seq::<ActionView>::empty()
            ||| actions == seq![ActionView::Bootstrap] && m.state is Idle && step(
                m,
                event,
            ).0.state is Bootstrapping
            ||| actions == seq![ActionView::Lookup(m.key)]
            ||| actions == retry(m.key)
        }),
        step(m, event).0.state is Idle ==> m.state is Idle,
        rank(step(m, event).0.state) >= rank(m.state),
        step(m, event).0.state is Exhausted ==> m.state is Exhausted,
{
}

/// Bootstrap is asked for at most once in a run, however many listeners
/// become ready, and never by a machine that has left its first state.
pub proof fn lemma_bootstrap_at_most_once(m: MachineView, events: Seq<EventView>)
    ensures
        bootstraps(run(m, events).1) <= 1,
        !(m.state is Idle) ==> bootstraps(run(m, events).1) == 0,
        run(m, events).0.state is Idle ==> bootstraps(run(m, events).1) == 0,
        run(m, events).0.state is Idle ==> m.state is Idle,
    decreases events.len(),
{
    if events.len() > 0 {
        lemma_bootstrap_at_most_once(m, events.drop_last());
        let before = run(m, events.drop_last());
        let last = step(before.0, events.last());
        lemma_step_shapes(before.0, events.last());
        lemma_bootstraps_concat(before.1, last.1);
        reveal_with_fuel(bootstraps, 3);
    }
}

/// The key of a machine never changes, and every lookup in a run asks for it.
pub proof fn lemma_key_never_changes(m: MachineView, events: Seq<EventView>)
    ensures
        run(m, events).0.key == m.key,
        forall|i: int|
            0 <= i < run(m, events).1.len() && (#[trigger] run(m, events).1[i]) is Lookup
                ==> run(m, events).1[i] == ActionView::Lookup(m.key),
    decreases events.len(),
{
    if events.len() > 0 {
        lemma_key_never_changes(m, events.drop_last());
        let before = run(m, events.drop_last());
        lemma_step_shapes(before.0, events.last());
    }
}

/// Every wait in a run lasts the fixed backoff and is followed at once by a
/// lookup for the machine's key.
pub proof fn lemma_wait_then_same_lookup(m: MachineView, events: Seq<EventView>)
    ensures
        forall|i: int|
            0 <= i < run(m, events).1.len() && (#[trigger] run(m, events).1[i]) is Wait ==> {
                &&& run(m, events).1[i] == ActionView::Wait(RETRY_BACKOFF_SECS as nat)
                &&& i + 1 < run(m, events).1.len()
                &&& run(m, events).1[i + 1] == ActionView::Lookup(m.key)
            },
    decreases events.len(),
{
    if events.len() > 0 {
        lemma_wait_then_same_lookup(m, events.drop_last());
        lemma_key_never_changes(m, events.drop_last());
        let before = run(m, events.drop_last());
        let last = step(before.0, events.last());
        lemma_step_shapes(before.0, events.last());
        let trace = run(m, events).1;
        assert(trace == before.1 + last.1);
        assert forall|i: int| 0 <= i < trace.len() && (#[trigger] trace[i]) is Wait implies {
            &&& trace[i] == ActionView::Wait(RETRY_BACKOFF_SECS as nat)
            &&& i + 1 < trace.len()
            &&& trace[i + 1] == ActionView::Lookup(m.key)
        } by {
            if i < before.1.len() {
                assert(trace[i] == before.1[i]);
                assert(trace[i + 1] == before.1[i + 1]);
            } else {
                assert(trace[i] == last.1[i - before.1.len()]);
                assert(last.1 == retry(m.key));
                assert(i == before.1.len());
                assert(trace[i + 1] == last.1[1]);
            }
        }
    }
}

/// Repeated failure: after any history that has not ended the retrieval, `n`
/// failed lookups in a row leave the state as it is and add exactly `n`
/// retries to the trace, each one the backoff followed by a lookup for the
/// same key.
pub proof fn lemma_repeated_failure(m: MachineView, history: Seq<EventView>, n: nat)
    requires
        !is_terminal(run(m, history).0.state),
    ensures
        run(m, history + failures(n)).0 == run(m, history).0,
        run(m, history + failures(n)).1 == run(m, history).1 + retries(m.key, n),
    decreases n,
{
    lemma_key_never_changes(m, history);
    if n == 0 {
        assert(history + failures(0) =~= history);
        assert(run(m, history).1 + retries(m.key, 0) =~= run(m, history).1);
    } else {
        let shorter = history + failures((n - 1) as nat);
        lemma_repeated_failure(m, history, (n - 1) as nat);
        assert((history + failures(n)).drop_last() =~= shorter);
        assert((history + failures(n)).last() == EventView::QueryFailed);
        let before = run(m, shorter);
        assert(step(before.0, EventView::QueryFailed) == (before.0, retry(m.key)));
        assert((run(m, history).1 + retries(m.key, (n - 1) as nat)) + retry(m.key) =~= run(
            m,
            history,
        ).1 + retries(m.key, n));
    }
}

/// The shape of `n` retries: `2 * n` actions, alternating the backoff and a
/// lookup for `key`, which wait `n` backoffs in all. Between one lookup of a
/// retry sequence and the next lies one full backoff.
pub proof fn lemma_retries_shape(key: Seq<u8>, n: nat)
    ensures
        retries(key, n).len() == 2 * n,
        forall|k: int|
            0 <= k < n ==> {
                &&& (#[trigger] retries(key, n)[2 * k]) == ActionView::Wait(
                    RETRY_BACKOFF_SECS as nat,
                )
                &&& retries(key, n)[2 * k + 1] == ActionView::Lookup(key)
            },
        waited(retries(key, n)) == n * RETRY_BACKOFF_SECS,
    decreases n,
{
    if n > 0 {
        let shorter = retries(key, (n - 1) as nat);
        lemma_retries_shape(key, (n - 1) as nat);
        lemma_waited_concat(shorter, retry(key));
        reveal_with_fuel(waited, 3);
        assert(waited(retry(key)) == RETRY_BACKOFF_SECS) by {
            assert(retry(key).drop_last() =~= seq![ActionView::Wait(RETRY_BACKOFF_SECS as nat)]);
            assert(retry(key).drop_last().drop_last() =~= Seq::<ActionView>::empty());
        }
        assert(n * RETRY_BACKOFF_SECS == (n - 1) * RETRY_BACKOFF_SECS + RETRY_BACKOFF_SECS)
            by (nonlinear_arith);
        assert forall|k: int| 0 <= k < n implies {
            &&& (#[trigger] retries(key, n)[2 * k]) == ActionView::Wait(
                RETRY_BACKOFF_SECS as nat,
            )
            &&& retries(key, n)[2 * k + 1] == ActionView::Lookup(key)
        } by {
            if k < n - 1 {
                assert(retries(key, n)[2 * k] == shorter[2 * k]);
                assert(retries(key, n)[2 * k + 1] == shorter[2 * k + 1]);
            } else {
                assert(retries(key, n)[2 * k] == retry(key)[0]);
                assert(retries(key, n)[2 * k + 1] == retry(key)[1]);
            }
        }
    }
}

/// On repeated failure the lookups are at least one backoff apart: between
/// one lookup of a retry sequence and the next, the trace waits for the full
/// backoff, and both lookups ask for the same key.
pub proof fn lemma_backoff_between_retries(key: Seq<u8>, n: nat, k: int)
    requires
        0 <= k,
        k + 1 < n,
    ensures
        retries(key, n)[2 * k + 1] == ActionView::Lookup(key),
        retries(key, n)[2 * k + 3] == ActionView::Lookup(key),
        waited(retries(key, n).subrange(2 * k + 2, 2 * k + 3)) >= RETRY_BACKOFF_SECS,
{
    lemma_retries_shape(key, n);
    let between = retries(key, n).subrange(2 * k + 2, 2 * k + 3);
    assert(retries(key, n)[2 * k] == ActionView::Wait(RETRY_BACKOFF_SECS as nat));
    assert(retries(key, n)[2 * (k + 1)] == ActionView::Wait(RETRY_BACKOFF_SECS as nat));
    assert(between =~= seq![ActionView::Wait(RETRY_BACKOFF_SECS as nat)]);
    assert(between.drop_last() =~= Seq::<ActionView>::empty());
    reveal_with_fuel(waited, 2);
}

/// A retrieval that has ended stays as it is and asks for nothing more.
pub proof fn lemma_terminal_absorbs(m: MachineView, events: Seq<EventView>)
    requires
        is_terminal(m.state),
    ensures
        run(m, events).0 == m,
        run(m, events).1 == Seq::<ActionView>::empty(),
    decreases events.len(),
{
    if events.len() > 0 {
        lemma_terminal_absorbs(m, events.drop_last());
        assert(run(m, events).1 =~= Seq::<ActionView>::empty());
    }
}

/// A retrieval only moves forward through its states, and it is never given
/// up: no run that starts elsewhere reaches `Exhausted`.
pub proof fn lemma_progress_is_linear(m: MachineView, events: Seq<EventView>)
    ensures
        rank(run(m, events).0.state) >= rank(m.state),
        run(m, events).0.state is Exhausted ==> m.state is Exhausted,
    decreases events.len(),
{
    if events.len() > 0 {
        lemma_progress_is_linear(m, events.drop_last());
        lemma_step_shapes(run(m, events.drop_last()).0, events.last());
    }
}

/// A fresh machine is never given up on, and it asks to bootstrap at most
/// once, whatever the network reports.
pub proof fn lemma_fresh_machine(key: Seq<u8>, events: Seq<EventView>)
    ensures
        !(run(initial(key), events).0.state is Exhausted),
        bootstraps(run(initial(key), events).1) <= 1,
        run(initial(key), events).0.key == key,
{
    lemma_progress_is_linear(initial(key), events);
    lemma_bootstrap_at_most_once(initial(key), events);
    lemma_key_never_changes(initial(key), events);
}

} // verus!
