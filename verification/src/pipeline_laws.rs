//! What holds of every run of the pipeline.
//!
//! A run is a start pipeline and a sequence of reports; its trace is every
//! command issued on the way, in order. The laws below are stated over
//! [`played`] and are proved for all start pipelines and all report
//! sequences.

use crate::key::ContentKeyView;
use crate::pipeline::{
    advanced, ending, engine_commands, found_bytes, opened, played, target_of, CommandView,
    PipelineView, ReportView, Stage,
};
use crate::retrieval::{initial, is_terminal, run, step, ActionView, EventView};
use crate::retrieval_laws::{bootstraps, lemma_fresh_machine};
use crate::sharing::{final_disposition, is_sharing, Disposition};
use crate::startup::SettingsView;
use vstd::prelude::*;

verus! {

/// The kinds of command.
pub enum Kind {
    Engine,
    Store,
    Share,
    End,
}

/// The kind of a command.
pub open spec fn kind_of(command: CommandView) -> Kind {
    match command {
        CommandView::Engine(_) => Kind::Engine,
        CommandView::Store { .. } => Kind::Store,
        CommandView::Share(_) => Kind::Share,
        CommandView::End(_) => Kind::End,
    }
}

/// How many commands of `kind` are in `trace`.
pub open spec fn tally(trace: Seq<CommandView>, kind: Kind) -> nat
    decreases trace.len(),
{
    if trace.len() == 0 {
        0
    } else {
        tally(trace.drop_last(), kind) + if kind_of(trace.last()) == kind {
            1nat
        } else {
            0nat
        }
    }
}

/// The place of a stage in the order of a run.
pub open spec fn stage_rank(stage: Stage) -> nat {
    match stage {
        Stage::Retrieving => 0,
        Stage::Storing => 1,
        Stage::Sharing => 2,
        Stage::Finished => 3,
    }
}

/// Whether any of `reports` says that the content was stored.
pub open spec fn reports_stored(reports: Seq<ReportView>) -> bool {
    exists|i: int| 0 <= i < reports.len() && reports[i] == ReportView::Stored(true)
}

proof fn lemma_tally_concat(a: Seq<CommandView>, b: Seq<CommandView>, kind: Kind)
    ensures
        tally(a + b, kind) == tally(a, kind) + tally(b, kind),
    decreases b.len(),
{
    if b.len() == 0 {
        assert(a + b =~= a);
    } else {
        assert((a + b).drop_last() =~= a + b.drop_last());
        lemma_tally_concat(a, b.drop_last(), kind);
    }
}

proof fn lemma_tally_engine_only(trace: Seq<CommandView>, kind: Kind)
    requires
        forall|i: int| 0 <= i < trace.len() ==> kind_of(#[trigger] trace[i]) == Kind::Engine,
        kind != Kind::Engine,
    ensures
        tally(trace, kind) == 0,
    decreases trace.len(),
{
    if trace.len() > 0 {
        assert(kind_of(trace[trace.len() - 1]) == Kind::Engine);
        lemma_tally_engine_only(trace.drop_last(), kind);
    }
}

proof fn lemma_tally_one(command: CommandView, kind: Kind)
    ensures
        tally(seq![command], kind) == if kind_of(command) == kind {
            1nat
        } else {
            0nat
        },
{
    assert(seq![command].drop_last() =~= Seq::<CommandView>::empty());
    reveal_with_fuel(tally, 2);
}

/// What one step can do: it keeps the settings, the key and the node; it
/// never goes back a stage; and it issues at most one command that is not
/// for the engine, of the kind that the stage before it allows.
proof fn lemma_advance_shapes(p: PipelineView, report: ReportView)
    ensures
        advanced(p, report).0.settings == p.settings,
        advanced(p, report).0.key == p.key,
        advanced(p, report).0.node == p.node,
        stage_rank(advanced(p, report).0.stage) >= stage_rank(p.stage),
        tally(advanced(p, report).1, Kind::Store) == if p.stage == Stage::Retrieving
            && advanced(p, report).0.stage == Stage::Storing {
            1nat
        } else {
            0nat
        },
        tally(advanced(p, report).1, Kind::Share) == if p.stage == Stage::Storing && advanced(
            p,
            report,
        ).0.stage == Stage::Sharing {
            1nat
        } else {
            0nat
        },
        tally(advanced(p, report).1, Kind::End) == if p.stage != Stage::Finished && advanced(
            p,
            report,
        ).0.stage == Stage::Finished {
            1nat
        } else {
            0nat
        },
        tally(advanced(p, report).1, Kind::Share) > 0 ==> report == ReportView::Stored(true)
            && is_sharing(p.settings.exposure),
        forall|i: int|
            0 <= i < advanced(p, report).1.len() && kind_of(#[trigger] advanced(p, report).1[i])
                == Kind::End ==> advanced(p, report).1[i] == ending(p),
        forall|i: int|
            0 <= i < advanced(p, report).1.len() && kind_of(#[trigger] advanced(p, report).1[i])
                == Kind::Store ==> {
                &&& advanced(p, report).0.machine.state is Found
                &&& advanced(p, report).1[i] == (CommandView::Store {
                    target: target_of(p),
                    bytes: found_bytes(advanced(p, report).0.machine.state),
                })
            },
        p.stage != Stage::Retrieving ==> advanced(p, report).0.machine == p.machine,
        p.stage == Stage::Retrieving && advanced(p, report).0.stage != Stage::Retrieving
            ==> advanced(p, report).0.machine.state is Found,
{
    let out = advanced(p, report);
    match (p.stage, report) {
        (Stage::Retrieving, ReportView::Engine(event)) => {
            let next = step(p.machine, event);
            let engine = engine_commands(next.1);
            assert forall|i: int| 0 <= i < engine.len() implies kind_of(#[trigger] engine[i])
                == Kind::Engine by {}
            lemma_tally_engine_only(engine, Kind::Store);
            lemma_tally_engine_only(engine, Kind::Share);
            lemma_tally_engine_only(engine, Kind::End);
            if !is_terminal(p.machine.state) && next.0.state is Found {
                let store = CommandView::Store {
                    target: target_of(p),
                    bytes: found_bytes(next.0.state),
                };
                assert(out.1 =~= engine + seq![store]);
                lemma_tally_concat(engine, seq![store], Kind::Store);
                lemma_tally_concat(engine, seq![store], Kind::Share);
                lemma_tally_concat(engine, seq![store], Kind::End);
                lemma_tally_one(store, Kind::Store);
                lemma_tally_one(store, Kind::Share);
                lemma_tally_one(store, Kind::End);
            }
        },
        (Stage::Storing, ReportView::Stored(_)) => {
            lemma_tally_one(out.1[0], Kind::Store);
            lemma_tally_one(out.1[0], Kind::Share);
            lemma_tally_one(out.1[0], Kind::End);
            assert(out.1 =~= seq![out.1[0]]);
        },
        (Stage::Sharing, ReportView::Shared(_)) => {
            lemma_tally_one(out.1[0], Kind::Store);
            lemma_tally_one(out.1[0], Kind::Share);
            lemma_tally_one(out.1[0], Kind::End);
            assert(out.1 =~= seq![out.1[0]]);
        },
        _ => {},
    }
}

/// A run keeps what it was opened with, and it only moves forward through
/// its stages.
pub proof fn lemma_run_is_linear(p: PipelineView, reports: Seq<ReportView>)
    ensures
        played(p, reports).0.settings == p.settings,
        played(p, reports).0.key == p.key,
        played(p, reports).0.node == p.node,
        stage_rank(played(p, reports).0.stage) >= stage_rank(p.stage),
    decreases reports.len(),
{
    if reports.len() > 0 {
        lemma_run_is_linear(p, reports.drop_last());
        lemma_advance_shapes(played(p, reports.drop_last()).0, reports.last());
    }
}

/// In a run the content is stored at most once, shared at most once, and the
/// run is ended at most once; and each of these has happened exactly when the
/// run has passed the stage that leads to it.
pub proof fn lemma_each_step_is_taken_once(p: PipelineView, reports: Seq<ReportView>)
    ensures
        tally(played(p, reports).1, Kind::Store) <= 1,
        tally(played(p, reports).1, Kind::Share) <= 1,
        tally(played(p, reports).1, Kind::End) <= 1,
        tally(played(p, reports).1, Kind::Store) == 1 <==> p.stage == Stage::Retrieving
            && played(p, reports).0.stage != Stage::Retrieving,
        tally(played(p, reports).1, Kind::End) == 1 <==> p.stage != Stage::Finished && played(
            p,
            reports,
        ).0.stage == Stage::Finished,
        tally(played(p, reports).1, Kind::Share) == 1 ==> stage_rank(p.stage) <= 1 && stage_rank(
            played(p, reports).0.stage,
        ) >= 2,
    decreases reports.len(),
{
    if reports.len() > 0 {
        let before = played(p, reports.drop_last());
        lemma_each_step_is_taken_once(p, reports.drop_last());
        lemma_run_is_linear(p, reports.drop_last());
        lemma_advance_shapes(before.0, reports.last());
        let last = advanced(before.0, reports.last());
        lemma_tally_concat(before.1, last.1, Kind::Store);
        lemma_tally_concat(before.1, last.1, Kind::Share);
        lemma_tally_concat(before.1, last.1, Kind::End);
    }
}

/// The end of a run fits the mode: a node that shares is never told to
/// leave, and a node that does not share is never told to stay.
pub proof fn lemma_ending_fits_the_mode(p: PipelineView, reports: Seq<ReportView>)
    ensures
        forall|i: int|
            0 <= i < played(p, reports).1.len() && kind_of(#[trigger] played(p, reports).1[i])
                == Kind::End ==> played(p, reports).1[i] == CommandView::End(
                final_disposition(p.settings.exposure),
            ),
        is_sharing(p.settings.exposure) ==> forall|i: int|
            0 <= i < played(p, reports).1.len() ==> (#[trigger] played(p, reports).1[i])
                != CommandView::End(Disposition::Exit),
    decreases reports.len(),
{
    if reports.len() > 0 {
        let before = played(p, reports.drop_last());
        lemma_ending_fits_the_mode(p, reports.drop_last());
        lemma_run_is_linear(p, reports.drop_last());
        lemma_advance_shapes(before.0, reports.last());
        let last = advanced(before.0, reports.last());
        let trace = played(p, reports).1;
        assert(trace == before.1 + last.1);
        assert forall|i: int| 0 <= i < trace.len() && kind_of(#[trigger] trace[i])
            == Kind::End implies trace[i] == CommandView::End(
            final_disposition(p.settings.exposure),
        ) by {
            if i < before.1.len() {
                assert(trace[i] == before.1[i]);
            } else {
                assert(trace[i] == last.1[i - before.1.len()]);
            }
        }
    }
}

/// Nothing is shared unless the content was stored and the operator asked
/// for sharing: a run whose trace holds a share step has seen the report of
/// a successful write, in a mode that shares.
pub proof fn lemma_shared_only_after_stored(p: PipelineView, reports: Seq<ReportView>)
    requires
        tally(played(p, reports).1, Kind::Share) > 0,
    ensures
        reports_stored(reports),
        is_sharing(p.settings.exposure),
    decreases reports.len(),
{
    if reports.len() > 0 {
        let shorter = reports.drop_last();
        let before = played(p, shorter);
        let last = advanced(before.0, reports.last());
        lemma_run_is_linear(p, shorter);
        lemma_advance_shapes(before.0, reports.last());
        lemma_tally_concat(before.1, last.1, Kind::Share);
        if tally(before.1, Kind::Share) > 0 {
            lemma_shared_only_after_stored(p, shorter);
            let i = choose|i: int| 0 <= i < shorter.len() && shorter[i] == ReportView::Stored(true);
            assert(reports[i] == shorter[i]);
        } else {
            assert(reports[reports.len() - 1] == ReportView::Stored(true));
        }
    }
}

/// What is stored is what was found: in a run of a freshly opened pipeline,
/// a run that has left the retrieving stage has found its content, and the
/// store command carries exactly the found bytes and the resolved target.
pub proof fn lemma_stored_is_what_was_found(
    settings: SettingsView,
    key: ContentKeyView,
    node: Seq<u8>,
    reports: Seq<ReportView>,
)
    ensures
        played(opened(settings, key, node), reports).0.stage != Stage::Retrieving ==> played(
            opened(settings, key, node),
            reports,
        ).0.machine.state is Found,
        forall|i: int|
            0 <= i < played(opened(settings, key, node), reports).1.len() && kind_of(
                #[trigger] played(opened(settings, key, node), reports).1[i],
            ) == Kind::Store ==> played(opened(settings, key, node), reports).1[i]
                == (CommandView::Store {
                target: target_of(opened(settings, key, node)),
                bytes: found_bytes(played(opened(settings, key, node), reports).0.machine.state),
            }),
    decreases reports.len(),
{
    let start = opened(settings, key, node);
    if reports.len() > 0 {
        let before = played(start, reports.drop_last());
        lemma_stored_is_what_was_found(settings, key, node, reports.drop_last());
        lemma_run_is_linear(start, reports.drop_last());
        lemma_each_step_is_taken_once(start, reports.drop_last());
        lemma_advance_shapes(before.0, reports.last());
        let last = advanced(before.0, reports.last());
        let trace = played(start, reports).1;
        assert(trace == before.1 + last.1);
        assert(target_of(before.0) == target_of(start));
        assert forall|i: int| 0 <= i < trace.len() && kind_of(#[trigger] trace[i])
            == Kind::Store implies trace[i] == (CommandView::Store {
            target: target_of(start),
            bytes: found_bytes(played(start, reports).0.machine.state),
        }) by {
            if i < before.1.len() {
                assert(trace[i] == before.1[i]);
                lemma_tally_has(before.1, i, Kind::Store);
            } else {
                assert(trace[i] == last.1[i - before.1.len()]);
            }
        }
    }
}

/// The engine events among `reports`, in order.
pub open spec fn engine_events(reports: Seq<ReportView>) -> Seq<EventView>
    decreases reports.len(),
{
    if reports.len() == 0 {
        Seq::empty()
    } else {
        match reports.last() {
            ReportView::Engine(event) => engine_events(reports.drop_last()).push(event),
            _ => engine_events(reports.drop_last()),
        }
    }
}

/// The actions that `trace` hands to the engine, in order.
pub open spec fn engine_actions(trace: Seq<CommandView>) -> Seq<ActionView>
    decreases trace.len(),
{
    if trace.len() == 0 {
        Seq::empty()
    } else {
        match trace.last() {
            CommandView::Engine(action) => engine_actions(trace.drop_last()).push(action),
            _ => engine_actions(trace.drop_last()),
        }
    }
}

proof fn lemma_engine_actions_concat(a: Seq<CommandView>, b: Seq<CommandView>)
    ensures
        engine_actions(a + b) == engine_actions(a) + engine_actions(b),
    decreases b.len(),
{
    if b.len() == 0 {
        assert(a + b =~= a);
        assert(engine_actions(a) + engine_actions(b) =~= engine_actions(a));
    } else {
        assert((a + b).drop_last() =~= a + b.drop_last());
        lemma_engine_actions_concat(a, b.drop_last());
        match b.last() {
            CommandView::Engine(action) => {
                assert((engine_actions(a) + engine_actions(b.drop_last())).push(action)
                    =~= engine_actions(a) + engine_actions(b));
            },
            _ => {},
        }
    }
}

proof fn lemma_engine_actions_of_commands(actions: Seq<ActionView>)
    ensures
        engine_actions(engine_commands(actions)) == actions,
    decreases actions.len(),
{
    if actions.len() > 0 {
        assert(engine_commands(actions).drop_last() =~= engine_commands(actions.drop_last()));
        lemma_engine_actions_of_commands(actions.drop_last());
        assert(engine_actions(engine_commands(actions)) =~= actions);
    } else {
        assert(engine_commands(actions) =~= Seq::<CommandView>::empty());
    }
}

proof fn lemma_engine_actions_of_other(command: CommandView)
    requires
        kind_of(command) != Kind::Engine,
    ensures
        engine_actions(seq![command]) == Seq::<ActionView>::empty(),
{
    assert(seq![command].drop_last() =~= Seq::<CommandView>::empty());
    reveal_with_fuel(engine_actions, 2);
}

/// The pipeline adds nothing to the retrieval and takes nothing from it: in
/// a run of a freshly opened pipeline, the retrieval is where the state
/// machine is after the engine events among the reports, and the actions
/// handed to the engine are exactly the actions of that machine, in order.
/// So the engine is asked to bootstrap at most once in a whole run.
pub proof fn lemma_engine_follows_the_retrieval(
    settings: SettingsView,
    key: ContentKeyView,
    node: Seq<u8>,
    reports: Seq<ReportView>,
)
    ensures
        played(opened(settings, key, node), reports).0.machine == run(
            initial(key.bytes),
            engine_events(reports),
        ).0,
        engine_actions(played(opened(settings, key, node), reports).1) == run(
            initial(key.bytes),
            engine_events(reports),
        ).1,
        bootstraps(engine_actions(played(opened(settings, key, node), reports).1)) <= 1,
    decreases reports.len(),
{
    let start = opened(settings, key, node);
    if reports.len() > 0 {
        let shorter = reports.drop_last();
        let before = played(start, shorter);
        let last = advanced(before.0, reports.last());
        lemma_engine_follows_the_retrieval(settings, key, node, shorter);
        lemma_stored_is_what_was_found(settings, key, node, shorter);
        lemma_advance_shapes(before.0, reports.last());
        lemma_engine_actions_concat(before.1, last.1);
        let events = engine_events(shorter);
        if let ReportView::Engine(event) = reports.last() {
            assert(engine_events(reports) == events.push(event));
            assert(events.push(event).drop_last() =~= events);
            assert(events.push(event).last() == event);
        }
        match (before.0.stage, reports.last()) {
            (Stage::Retrieving, ReportView::Engine(event)) => {
                let next = step(before.0.machine, event);
                lemma_engine_actions_of_commands(next.1);
                if !is_terminal(before.0.machine.state) && next.0.state is Found {
                    let store = CommandView::Store {
                        target: target_of(before.0),
                        bytes: found_bytes(next.0.state),
                    };
                    assert(last.1 =~= engine_commands(next.1) + seq![store]);
                    lemma_engine_actions_concat(engine_commands(next.1), seq![store]);
                    lemma_engine_actions_of_other(store);
                    assert(next.1 + Seq::<ActionView>::empty() =~= next.1);
                }
            },
            (Stage::Storing, ReportView::Stored(_)) => {
                assert(last.1 =~= seq![last.1[0]]);
                lemma_engine_actions_of_other(last.1[0]);
                assert(engine_actions(before.1) + Seq::<ActionView>::empty() =~= engine_actions(
                    before.1,
                ));
            },
            (Stage::Sharing, ReportView::Shared(_)) => {
                assert(last.1 =~= seq![last.1[0]]);
                lemma_engine_actions_of_other(last.1[0]);
                assert(engine_actions(before.1) + Seq::<ActionView>::empty() =~= engine_actions(
                    before.1,
                ));
            },
            (_, ReportView::Engine(event)) => {
                assert(is_terminal(before.0.machine.state));
                assert(last.1 =~= Seq::<CommandView>::empty());
                assert(engine_actions(before.1) + Seq::<ActionView>::empty() =~= engine_actions(
                    before.1,
                ));
                assert(run(initial(key.bytes), engine_events(shorter)).1 + Seq::<
                    ActionView,
                >::empty() =~= run(initial(key.bytes), engine_events(shorter)).1);
            },
            _ => {
                assert(last.1 =~= Seq::<CommandView>::empty());
                assert(engine_actions(before.1) + Seq::<ActionView>::empty() =~= engine_actions(
                    before.1,
                ));
            },
        }
    }
    lemma_fresh_machine(key.bytes, engine_events(reports));
}

proof fn lemma_tally_has(trace: Seq<CommandView>, i: int, kind: Kind)
    requires
        0 <= i < trace.len(),
        kind_of(trace[i]) == kind,
    ensures
        tally(trace, kind) > 0,
    decreases trace.len(),
{
    if i < trace.len() - 1 {
        lemma_tally_has(trace.drop_last(), i, kind);
    }
}

} // verus!
