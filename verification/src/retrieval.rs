//! The retrieval state machine.
//!
//! One machine drives one lookup. The host feeds it the events that the
//! network engine reports, one at a time and in arrival order, and carries out
//! the actions that each step returns. The machine never blocks and never
//! fails: what to do next is a function of the current state and the event.

use crate::bytes::copy_bytes;
use crate::key::ContentKey;
use vstd::prelude::*;

verus! {

/// Seconds to wait after a failed lookup before the same lookup is issued
/// again. The delay does not grow and the number of attempts is not capped.
pub const RETRY_BACKOFF_SECS: u64 = 5;

/// Where a retrieval stands.
#[derive(Debug, PartialEq, Eq)]
pub enum RetrievalState {
    /// Nothing has been heard from the network yet.
    Idle,
    /// The node has asked to join the network.
    Bootstrapping,
    /// The node has joined and waits for the lookup to answer.
    AwaitingQueryResult,
    /// The lookup answered with these bytes.
    Found(Vec<u8>),
    /// The lookup was given up. No event leads here: retries are unbounded.
    Exhausted,
}

/// The mathematical content of a [`RetrievalState`].
pub enum StateView {
    Idle,
    Bootstrapping,
    AwaitingQueryResult,
    Found(Seq<u8>),
    Exhausted,
}

impl View for RetrievalState {
    type V = StateView;

    open spec fn view(&self) -> StateView {
        match self {
            RetrievalState::Idle => StateView::Idle,
            RetrievalState::Bootstrapping => StateView::Bootstrapping,
            RetrievalState::AwaitingQueryResult => StateView::AwaitingQueryResult,
            RetrievalState::Found(bytes) => StateView::Found(bytes@),
            RetrievalState::Exhausted => StateView::Exhausted,
        }
    }
}

/// What the network engine reported. Everything the machine does not react
/// to arrives as [`EngineEvent::Unhandled`].
#[derive(Debug, PartialEq, Eq)]
pub enum EngineEvent {
    /// A local listener became ready.
    ListenerReady,
    /// Joining the network made progress.
    BootstrapProgress,
    /// The lookup found the value.
    QueryFound(Vec<u8>),
    /// The lookup ended without a value, or with an error.
    QueryFailed,
    /// Any other event.
    Unhandled,
}

/// The mathematical content of an [`EngineEvent`].
pub enum EventView {
    ListenerReady,
    BootstrapProgress,
    QueryFound(Seq<u8>),
    QueryFailed,
    Unhandled,
}

impl View for EngineEvent {
    type V = EventView;

    open spec fn view(&self) -> EventView {
        match self {
            EngineEvent::ListenerReady => EventView::ListenerReady,
            EngineEvent::BootstrapProgress => EventView::BootstrapProgress,
            EngineEvent::QueryFound(bytes) => EventView::QueryFound(bytes@),
            EngineEvent::QueryFailed => EventView::QueryFailed,
            EngineEvent::Unhandled => EventView::Unhandled,
        }
    }
}

/// What the host is asked to do, in the order given.
#[derive(Debug, PartialEq, Eq)]
pub enum Action {
    /// Ask the engine to join the network.
    Bootstrap,
    /// Ask the engine for the value stored under `key`.
    Lookup { key: Vec<u8> },
    /// Let `seconds` pass before the next action.
    Wait { seconds: u64 },
}

/// The mathematical content of an [`Action`].
pub enum ActionView {
    Bootstrap,
    Lookup(Seq<u8>),
    Wait(nat),
}

impl View for Action {
    type V = ActionView;

    open spec fn view(&self) -> ActionView {
        match self {
            Action::Bootstrap => ActionView::Bootstrap,
            Action::Lookup { key } => ActionView::Lookup(key@),
            Action::Wait { seconds } => ActionView::Wait(*seconds as nat),
        }
    }
}

impl Clone for Action {
    fn clone(&self) -> (r: Self)
        ensures
            r@ == self@,
    {
        match self {
            Action::Bootstrap => Action::Bootstrap,
            Action::Lookup { key } => Action::Lookup { key: copy_bytes(key) },
            Action::Wait { seconds } => Action::Wait { seconds: *seconds },
        }
    }
}

/// The views of a list of actions, in order.
pub open spec fn view_actions(actions: Seq<Action>) -> Seq<ActionView> {
    actions.map_values(|a: Action| a@)
}

/// The mathematical content of a [`RetrievalMachine`].
pub struct MachineView {
    /// The lookup key, fixed for the life of the machine.
    pub key: Seq<u8>,
    /// The current state.
    pub state: StateView,
}

/// Whether no event changes `state` any more.
pub open spec fn is_terminal(state: StateView) -> bool {
    state is Found || state is Exhausted
}

/// The machine for `key` before any event.
pub open spec fn initial(key: Seq<u8>) -> MachineView {
    MachineView { key, state: StateView::Idle }
}

/// The actions issued when a machine for `key` is started: the first lookup,
/// which does not wait for the node to join the network.
pub open spec fn initial_actions(key: Seq<u8>) -> Seq<ActionView> {
    seq![ActionView::Lookup(key)]
}

/// The answer to a failed lookup: wait, then ask again for the same key.
pub open spec fn retry(key: Seq<u8>) -> Seq<ActionView> {
    seq![ActionView::Wait(RETRY_BACKOFF_SECS as nat), ActionView::Lookup(key)]
}

/// One step: the machine after `event`, and the actions to carry out.
///
/// - A terminal state ignores every event.
/// - The first ready listener triggers the bootstrap; later ones do nothing.
/// - Bootstrap progress re-issues the lookup.
/// - A found value ends the retrieval.
/// - A failed lookup is retried after the backoff.
/// - Anything else is ignored.
pub open spec fn step(m: MachineView, event: EventView) -> (MachineView, Seq<ActionView>) {
    if is_terminal(m.state) {
        (m, seq![])
    } else {
        match event {
            EventView::ListenerReady => {
                if m.state is Idle {
                    (
                        MachineView { key: m.key, state: StateView::Bootstrapping },
                        seq![ActionView::Bootstrap],
                    )
                } else {
                    (m, seq![])
                }
            },
            EventView::BootstrapProgress => {
                if m.state is Bootstrapping {
                    (
                        MachineView { key: m.key, state: StateView::AwaitingQueryResult },
                        seq![ActionView::Lookup(m.key)],
                    )
                } else {
                    (m, seq![ActionView::Lookup(m.key)])
                }
            },
            EventView::QueryFound(bytes) => (
                MachineView { key: m.key, state: StateView::Found(bytes) },
                seq![],
            ),
            EventView::QueryFailed => (m, retry(m.key)),
            EventView::Unhandled => (m, seq![]),
        }
    }
}

/// The machine after all of `events`, and every action issued on the way.
pub open spec fn run(m: MachineView, events: Seq<EventView>) -> (MachineView, Seq<ActionView>)
    decreases events.len(),
{
    if events.len() == 0 {
        (m, seq![])
    } else {
        let before = run(m, events.drop_last());
        let last = step(before.0, events.last());
        (last.0, before.1 + last.1)
    }
}

/// A retrieval in progress.
#[derive(Debug, PartialEq, Eq)]
pub struct RetrievalMachine {
    key: ContentKey,
    state: RetrievalState,
}

impl View for RetrievalMachine {
    type V = MachineView;

    closed spec fn view(&self) -> MachineView {
        MachineView { key: self.key@.bytes, state: self.state@ }
    }
}

impl RetrievalMachine {
    /// The identifier that this machine retrieves.
    pub closed spec fn content_key(&self) -> ContentKey {
        self.key
    }

    /// The key of a machine's view is the lookup key of its identifier.
    pub proof fn lemma_key_bytes(&self)
        ensures
            self@.key == self.content_key()@.bytes,
    {
    }

    /// Starts a retrieval for `key`. The first lookup is issued at once.
    pub fn start(key: ContentKey) -> (r: (RetrievalMachine, Vec<Action>))
        ensures
            r.0@ == initial(key@.bytes),
            r.0.content_key() == key,
            view_actions(r.1@) == initial_actions(key@.bytes),
    {
        let mut actions: Vec<Action> = Vec::new();
        actions.push(Action::Lookup { key: copy_bytes(key.as_bytes()) });
        let machine = RetrievalMachine { key, state: RetrievalState::Idle };
        assert(view_actions(actions@) =~= initial_actions(key@.bytes));
        (machine, actions)
    }

    /// Takes one event and returns what to do about it.
    pub fn on_event(&mut self, event: EngineEvent) -> (actions: Vec<Action>)
        ensures
            (final(self)@, view_actions(actions@)) == step(old(self)@, event@),
            final(self).content_key() == old(self).content_key(),
    {
        let mut actions: Vec<Action> = Vec::new();
        let ghost before = self@;
        match self.state {
            RetrievalState::Found(_) | RetrievalState::Exhausted => {},
            _ => {
                match event {
                    EngineEvent::ListenerReady => {
                        if let RetrievalState::Idle = self.state {
                            self.state = RetrievalState::Bootstrapping;
                            actions.push(Action::Bootstrap);
                        }
                    },
                    EngineEvent::BootstrapProgress => {
                        if let RetrievalState::Bootstrapping = self.state {
                            self.state = RetrievalState::AwaitingQueryResult;
                        }
                        actions.push(Action::Lookup { key: copy_bytes(self.key.as_bytes()) });
                    },
                    EngineEvent::QueryFound(bytes) => {
                        self.state = RetrievalState::Found(bytes);
                    },
                    EngineEvent::QueryFailed => {
                        actions.push(Action::Wait { seconds: RETRY_BACKOFF_SECS });
                        actions.push(Action::Lookup { key: copy_bytes(self.key.as_bytes()) });
                    },
                    EngineEvent::Unhandled => {},
                }
            },
        }
        assert(view_actions(actions@) =~= step(before, event@).1);
        actions
    }

    /// The current state.
    pub fn state(&self) -> (r: &RetrievalState)
        ensures
            r@ == self@.state,
    {
        &self.state
    }

    /// The key that every lookup of this machine asks for.
    pub fn key(&self) -> (r: &ContentKey)
        ensures
            *r == self.content_key(),
            r@.bytes == self@.key,
    {
        &self.key
    }

    /// Whether the retrieval is over.
    pub fn is_finished(&self) -> (r: bool)
        ensures
            r == is_terminal(self@.state),
    {
        match self.state {
            RetrievalState::Found(_) | RetrievalState::Exhausted => true,
            _ => false,
        }
    }

    /// The bytes that were found, once the retrieval has succeeded.
    pub fn content(&self) -> (r: Option<&Vec<u8>>)
        ensures
            match r {
                Some(bytes) => self@.state == StateView::Found(bytes@),
                None => !(self@.state is Found),
            },
    {
        match &self.state {
            RetrievalState::Found(bytes) => Some(bytes),
            _ => None,
        }
    }
}

} // verus!
