//! The whole run of a node as one state machine.
//!
//! A pipeline takes a retrieval from the first lookup to the end of the run:
//! it retrieves, has the found content stored, has it shared if the operator
//! asked for that, and then tells the host to leave or to stay up. The host
//! carries out each command and reports back what came of it.

use crate::bytes::copy_bytes;
use crate::key::{ContentKeyView, KeyError};
use crate::output::{resolve_output, resolved_target, OutputTarget, OutputTargetView};
use crate::retrieval::{
    initial, initial_actions, is_terminal, step, view_actions, Action, ActionView, EngineEvent,
    EventView, MachineView, RetrievalMachine, StateView,
};
use crate::sharing::{
    conclude, final_disposition, is_sharing, share_step, Disposition, ShareStep, ShareStepView,
};
use crate::startup::{plan_startup, startup_outcome, Settings, SettingsView, StartupPlan};
use vstd::prelude::*;

verus! {

/// How far a run has come.
#[derive(Debug, Clone, Copy, PartialEq, Eq, Structural)]
pub enum Stage {
    /// The content is being looked for.
    Retrieving,
    /// The content was found and is being stored.
    Storing,
    /// The content was stored and is being shared.
    Sharing,
    /// There is nothing left to decide.
    Finished,
}

/// What the host reports back.
#[derive(Debug, PartialEq, Eq)]
pub enum Report {
    /// The network engine reported an event.
    Engine(EngineEvent),
    /// The content was written (`true`), or writing it failed (`false`).
    Stored(bool),
    /// The share step was taken (`true`), or it failed (`false`).
    Shared(bool),
}

/// The mathematical content of a [`Report`].
pub enum ReportView {
    Engine(EventView),
    Stored(bool),
    Shared(bool),
}

impl View for Report {
    type V = ReportView;

    open spec fn view(&self) -> ReportView {
        match self {
            Report::Engine(event) => ReportView::Engine(event@),
            Report::Stored(ok) => ReportView::Stored(*ok),
            Report::Shared(ok) => ReportView::Shared(*ok),
        }
    }
}

/// What the host is told to do.
#[derive(Debug, PartialEq, Eq)]
pub enum Command {
    /// Hand an action to the network engine.
    Engine(Action),
    /// Create or overwrite the file at `target` and write all of `bytes`.
    Store { target: OutputTarget, bytes: Vec<u8> },
    /// Share the stored content.
    Share(ShareStep),
    /// End the run: leave, or stay up.
    End(Disposition),
}

/// The mathematical content of a [`Command`].
pub enum CommandView {
    Engine(ActionView),
    Store { target: OutputTargetView, bytes: Seq<u8> },
    Share(ShareStepView),
    End(Disposition),
}

impl View for Command {
    type V = CommandView;

    open spec fn view(&self) -> CommandView {
        match self {
            Command::Engine(action) => CommandView::Engine(action@),
            Command::Store { target, bytes } => CommandView::Store {
                target: target@,
                bytes: bytes@,
            },
            Command::Share(step) => CommandView::Share(step@),
            Command::End(disposition) => CommandView::End(*disposition),
        }
    }
}

/// The views of a list of commands, in order.
pub open spec fn view_commands(commands: Seq<Command>) -> Seq<CommandView> {
    commands.map_values(|c: Command| c@)
}

/// The commands that hand `actions` to the engine, in order.
pub open spec fn engine_commands(actions: Seq<ActionView>) -> Seq<CommandView> {
    actions.map_values(|a: ActionView| CommandView::Engine(a))
}

/// The mathematical content of a [`Pipeline`].
pub struct PipelineView {
    /// What the operator asked for.
    pub settings: SettingsView,
    /// The identifier of this node.
    pub node: Seq<u8>,
    /// The key that is retrieved.
    pub key: ContentKeyView,
    /// The retrieval.
    pub machine: MachineView,
    /// How far the run has come.
    pub stage: Stage,
}

/// The pipeline for `settings` on the node `node`, before any report.
pub open spec fn opened(settings: SettingsView, key: ContentKeyView, node: Seq<u8>) -> PipelineView {
    PipelineView { settings, node, key, machine: initial(key.bytes), stage: Stage::Retrieving }
}

/// The commands issued when a pipeline for `key` is opened.
pub open spec fn opening_commands(key: ContentKeyView) -> Seq<CommandView> {
    engine_commands(initial_actions(key.bytes))
}

/// Where the content of `p` is stored.
pub open spec fn target_of(p: PipelineView) -> OutputTargetView {
    resolved_target(
        p.settings.output,
        is_sharing(p.settings.exposure),
        p.key.identifier,
        p.settings.share_dir,
    )
}

/// The bytes that a retrieval in `state` has found; none before it has.
pub open spec fn found_bytes(state: StateView) -> Seq<u8> {
    match state {
        StateView::Found(bytes) => bytes,
        _ => Seq::empty(),
    }
}

/// The share step of `p` once its content was stored, or failed to be.
pub open spec fn share_of(p: PipelineView, stored: bool) -> Option<ShareStepView> {
    share_step(
        p.settings.exposure,
        stored,
        p.key,
        found_bytes(p.machine.state),
        target_of(p),
        p.settings.description,
        p.node,
    )
}

/// The command that ends the run of `p`.
pub open spec fn ending(p: PipelineView) -> CommandView {
    CommandView::End(final_disposition(p.settings.exposure))
}

/// `p` at another stage.
pub open spec fn at_stage(p: PipelineView, stage: Stage) -> PipelineView {
    PipelineView { settings: p.settings, node: p.node, key: p.key, machine: p.machine, stage }
}

/// One step of the pipeline: the pipeline after `report`, and the commands
/// to carry out.
///
/// - While retrieving, engine events drive the retrieval. The event that
///   finds the content moves the run on to storing it.
/// - While storing, the report on the write decides: content that was stored
///   is shared if the mode says so; otherwise the run ends.
/// - While sharing, the report on the share step ends the run, however the
///   step went.
/// - A report that does not belong to the stage is ignored, and a finished
///   run ignores every report.
pub open spec fn advanced(p: PipelineView, report: ReportView) -> (PipelineView, Seq<CommandView>) {
    match (p.stage, report) {
        (Stage::Retrieving, ReportView::Engine(event)) => {
            let next = step(p.machine, event);
            let moved = PipelineView {
                settings: p.settings,
                node: p.node,
                key: p.key,
                machine: next.0,
                stage: p.stage,
            };
            if !is_terminal(p.machine.state) && next.0.state is Found {
                (
                    at_stage(moved, Stage::Storing),
                    engine_commands(next.1).push(
                        CommandView::Store {
                            target: target_of(p),
                            bytes: found_bytes(next.0.state),
                        },
                    ),
                )
            } else {
                (moved, engine_commands(next.1))
            }
        },
        (Stage::Storing, ReportView::Stored(ok)) => {
            match share_of(p, ok) {
                Some(share) => (at_stage(p, Stage::Sharing), seq![CommandView::Share(share)]),
                None => (at_stage(p, Stage::Finished), seq![ending(p)]),
            }
        },
        (Stage::Sharing, ReportView::Shared(_)) => (at_stage(p, Stage::Finished), seq![ending(p)]),
        _ => (p, seq![]),
    }
}

/// The pipeline after all of `reports`, and every command issued on the way.
pub open spec fn played(p: PipelineView, reports: Seq<ReportView>) -> (
    PipelineView,
    Seq<CommandView>,
)
    decreases reports.len(),
{
    if reports.len() == 0 {
        (p, seq![])
    } else {
        let before = played(p, reports.drop_last());
        let last = advanced(before.0, reports.last());
        (last.0, before.1 + last.1)
    }
}

/// A run in progress.
#[derive(Debug, PartialEq, Eq)]
pub struct Pipeline {
    settings: Settings,
    node: Vec<u8>,
    machine: RetrievalMachine,
    stage: Stage,
}

impl View for Pipeline {
    type V = PipelineView;

    closed spec fn view(&self) -> PipelineView {
        PipelineView {
            settings: self.settings@,
            node: self.node@,
            key: self.machine.content_key()@,
            machine: self.machine@,
            stage: self.stage,
        }
    }
}

/// What opening a pipeline yields: the pipeline, what to set up before the
/// first command, and the first commands.
#[derive(Debug, PartialEq, Eq)]
pub struct Opening {
    pub pipeline: Pipeline,
    pub plan: StartupPlan,
    pub commands: Vec<Command>,
}

fn wrap_actions(actions: &Vec<Action>) -> (commands: Vec<Command>)
    ensures
        view_commands(commands@) == engine_commands(view_actions(actions@)),
{
    let mut commands: Vec<Command> = Vec::new();
    let mut i: usize = 0;
    while i < actions.len()
        invariant
            i <= actions.len(),
            commands@.len() == i,
            forall|j: int| 0 <= j < i ==> commands@[j]@ == CommandView::Engine(actions@[j]@),
        decreases actions.len() - i,
    {
        commands.push(Command::Engine(actions[i].clone()));
        i += 1;
    }
    assert(view_commands(commands@) =~= engine_commands(view_actions(actions@)));
    commands
}

impl Pipeline {
    /// Opens a run for `settings` on the node `node`. An identifier that
    /// does not parse yields the error and nothing else: no plan, no
    /// pipeline, no command.
    pub fn open(settings: Settings, node: Vec<u8>) -> (r: Result<Opening, KeyError>)
        ensures
            match r {
                Ok(opening) => {
                    &&& startup_outcome(settings@, Ok::<StartupPlan, KeyError>(opening.plan))
                    &&& opening.pipeline@ == opened(settings@, opening.plan.key@, node@)
                    &&& view_commands(opening.commands@) == opening_commands(opening.plan.key@)
                },
                Err(e) => startup_outcome(settings@, Err::<StartupPlan, KeyError>(e)),
            },
    {
        let plan = match plan_startup(&settings) {
            Ok(plan) => plan,
            Err(e) => {
                return Err(e);
            },
        };
        let (machine, actions) = RetrievalMachine::start(plan.key.clone());
        let commands = wrap_actions(&actions);
        proof {
            machine.lemma_key_bytes();
        }
        let pipeline = Pipeline { settings, node, machine, stage: Stage::Retrieving };
        Ok(Opening { pipeline, plan, commands })
    }

    fn target(&self) -> (target: OutputTarget)
        ensures
            target@ == target_of(self@),
    {
        resolve_output(
            &self.settings.output,
            self.settings.exposure.shares(),
            self.machine.key().identifier().as_str(),
            self.settings.share_dir.as_str(),
        )
    }

    /// Takes one report and returns what to do about it.
    pub fn advance(&mut self, report: Report) -> (commands: Vec<Command>)
        ensures
            (final(self)@, view_commands(commands@)) == advanced(old(self)@, report@),
    {
        let ghost before = self@;
        let mut commands: Vec<Command> = Vec::new();
        match self.stage {
            Stage::Retrieving => {
                match report {
                    Report::Engine(event) => {
                        let was_over = self.machine.is_finished();
                        let target = self.target();
                        let actions = self.machine.on_event(event);
                        commands = wrap_actions(&actions);
                        if !was_over {
                            if let Some(bytes) = self.machine.content() {
                                commands.push(Command::Store { target, bytes: copy_bytes(bytes) });
                                self.stage = Stage::Storing;
                            }
                        }
                    },
                    _ => {},
                }
            },
            Stage::Storing => {
                match report {
                    Report::Stored(ok) => {
                        let bytes = match self.machine.content() {
                            Some(bytes) => copy_bytes(bytes),
                            None => Vec::new(),
                        };
                        let target = self.target();
                        let completion = conclude(
                            self.settings.exposure,
                            ok,
                            self.machine.key(),
                            &bytes,
                            &target,
                            &self.settings.description,
                            &self.node,
                        );
                        match completion.share {
                            Some(share) => {
                                commands.push(Command::Share(share));
                                self.stage = Stage::Sharing;
                            },
                            None => {
                                commands.push(Command::End(completion.disposition));
                                self.stage = Stage::Finished;
                            },
                        }
                    },
                    _ => {},
                }
            },
            Stage::Sharing => {
                match report {
                    Report::Shared(_) => {
                        let disposition = if self.settings.exposure.shares() {
                            Disposition::KeepAlive {
                                wake_after_secs: crate::sharing::KEEP_ALIVE_SECS,
                            }
                        } else {
                            Disposition::Exit
                        };
                        commands.push(Command::End(disposition));
                        self.stage = Stage::Finished;
                    },
                    _ => {},
                }
            },
            Stage::Finished => {},
        }
        assert(view_commands(commands@) =~= advanced(before, report@).1);
        commands
    }

    /// How far the run has come.
    pub fn stage(&self) -> (stage: Stage)
        ensures
            stage == self@.stage,
    {
        self.stage
    }

    /// The retrieval of this run.
    pub fn retrieval(&self) -> (machine: &RetrievalMachine)
        ensures
            machine@ == self@.machine,
            machine.content_key()@ == self@.key,
    {
        &self.machine
    }

    /// What the operator asked for.
    pub fn settings(&self) -> (settings: &Settings)
        ensures
            settings@ == self@.settings,
    {
        &self.settings
    }

    /// Whether there is nothing left to decide.
    pub fn is_finished(&self) -> (finished: bool)
        ensures
            finished == (self@.stage == Stage::Finished),
    {
        match self.stage {
            Stage::Finished => true,
            _ => false,
        }
    }
}

} // verus!
