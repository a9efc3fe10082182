use vstd::prelude::*;
use crate::config::Config;
use crate::event::{Event, EventView};
use crate::packets::message::{Message, MessageView};
use crate::packets::open::OpenView;
use crate::packets::update::{UpdateMessage, UpdateView};
use crate::state::State;

verus! {

/// One of the three routing tables of a session.
#[derive(Debug, Clone, Copy, Hash, PartialEq, Eq, Structural)]
pub enum Rib {
    LocRib,
    AdjRibOut,
    AdjRibIn,
}

/// What a transition asks the driver of the session to do. The state
/// machine itself performs none of it.
#[derive(PartialEq, Eq, Debug, Clone, Hash)]
pub enum Action {
    /// Open the transport connection to the peer.
    Connect,
    /// Send this message to the peer.
    Send(Message),
    /// Tell the driver that this event has come about.
    Raise(Event),
    /// Hand this Update to the keeper of the routes received from the peer.
    ApplyUpdate(UpdateMessage),
    /// This table changed: derive again what depends on it and pass it on.
    Propagate(Rib),
}

/// What an action holds.
pub enum ActionView {
    Connect,
    Send(MessageView),
    Raise(EventView),
    ApplyUpdate(UpdateView),
    Propagate(Rib),
}

impl View for Action {
    type V = ActionView;

    open spec fn view(&self) -> ActionView {
        match self {
            Action::Connect => ActionView::Connect,
            Action::Send(m) => ActionView::Send(m@),
            Action::Raise(e) => ActionView::Raise(e@),
            Action::ApplyUpdate(u) => ActionView::ApplyUpdate(u@),
            Action::Propagate(t) => ActionView::Propagate(*t),
        }
    }
}

/// The views of a sequence of actions, in order.
pub open spec fn action_views(actions: Seq<Action>) -> Seq<ActionView> {
    actions.map_values(|a: Action| a@)
}

/// The Open message that a speaker of this configuration sends.
pub open spec fn local_open(config: Config) -> MessageView {
    MessageView::Open(
        OpenView {
            version: 4,
            my_as_number: config.local_as.0,
            hold_time: 0,
            bgp_identifier: config.local_id,
            optional_parameters: Seq::empty(),
        },
    )
}

/// Whether the session has a transition for this event in this state.
pub open spec fn accepts(state: State, event: EventView) -> bool {
    match (state, event) {
        (State::Idle, EventView::ManualStart) => true,
        (State::Connect, EventView::TcpConnectionConfirmed) => true,
        (State::OpenSent, EventView::BgpOpen(_)) => true,
        (State::OpenConfirm, EventView::KeepAliveMsg) => true,
        (State::Established, EventView::UpdateMsg(_)) => true,
        (State::Established, EventView::LocRibChanged) => true,
        (State::Established, EventView::AdjRibOutChanged) => true,
        (State::Established, EventView::AdjRibInChanged) => true,
        _ => false,
    }
}

/// The state that follows. Where the session has no transition for the
/// event, the state stays.
pub open spec fn next_state(state: State, event: EventView) -> State {
    match (state, event) {
        (State::Idle, EventView::ManualStart) => State::Connect,
        (State::Connect, EventView::TcpConnectionConfirmed) => State::OpenSent,
        (State::OpenSent, EventView::BgpOpen(_)) => State::OpenConfirm,
        (State::OpenConfirm, EventView::KeepAliveMsg) => State::Established,
        _ => state,
    }
}

/// What the transition asks for, in order. Where the session has no
/// transition for the event, nothing.
pub open spec fn effects(state: State, event: EventView, config: Config) -> Seq<ActionView> {
    match (state, event) {
        (State::Idle, EventView::ManualStart) => seq![ActionView::Connect],
        (State::Connect, EventView::TcpConnectionConfirmed) => seq![
            ActionView::Send(local_open(config)),
        ],
        (State::OpenSent, EventView::BgpOpen(_)) => seq![ActionView::Send(MessageView::Keepalive)],
        (State::OpenConfirm, EventView::KeepAliveMsg) => seq![
            ActionView::Raise(EventView::Established),
        ],
        (State::Established, EventView::UpdateMsg(u)) => seq![ActionView::ApplyUpdate(u)],
        (State::Established, EventView::LocRibChanged) => seq![ActionView::Propagate(Rib::LocRib)],
        (State::Established, EventView::AdjRibOutChanged) => seq![
            ActionView::Propagate(Rib::AdjRibOut),
        ],
        (State::Established, EventView::AdjRibInChanged) => seq![
            ActionView::Propagate(Rib::AdjRibIn),
        ],
        _ => Seq::empty(),
    }
}

/// Whether a state and a list of actions are what the transition from
/// `state` on `event` yields.
pub open spec fn is_outcome(
    state: State,
    event: EventView,
    config: Config,
    next: State,
    actions: Seq<ActionView>,
) -> bool {
    next == next_state(state, event) && actions == effects(state, event, config)
}

/// Whether the session has a transition for this event in this state.
pub fn is_modeled(state: State, event: &Event) -> (r: bool)
    ensures
        r == accepts(state, event@),
{
    match state {
        State::Idle => match event {
            Event::ManualStart => true,
            _ => false,
        },
        State::Connect => match event {
            Event::TcpConnectionConfirmed => true,
            _ => false,
        },
        State::OpenSent => match event {
            Event::BgpOpen(_) => true,
            _ => false,
        },
        State::OpenConfirm => match event {
            Event::KeepAliveMsg(_) => true,
            _ => false,
        },
        State::Established => match event {
            Event::UpdateMsg(_) => true,
            Event::LocRibChanged => true,
            Event::AdjRibOutChanged => true,
            Event::AdjRibInChanged => true,
            _ => false,
        },
    }
}

fn single(action: Action) -> (r: Vec<Action>)
    ensures
        action_views(r@) == seq![action@],
        r@.len() == 1,
{
    let mut r: Vec<Action> = Vec::new();
    r.push(action);
    assert(action_views(r@) =~= seq![action@]);
    r
}

/// The transition function of the session: from a state and an event for
/// which the state has a transition, the next state and what the driver is
/// to do. It performs nothing itself and keeps nothing between calls.
pub fn transition(state: State, event: Event, config: &Config) -> (r: (State, Vec<Action>))
    requires
        accepts(state, event@),
    ensures
        is_outcome(state, event@, *config, r.0, action_views(r.1@)),
        r.1@.len() == 1,
{
    match state {
        State::Idle => (State::Connect, single(Action::Connect)),
        State::Connect => (
            State::OpenSent,
            single(Action::Send(Message::new_open(config.local_as, config.local_id))),
        ),
        State::OpenSent => (State::OpenConfirm, single(Action::Send(Message::new_keepalive()))),
        State::OpenConfirm => (State::Established, single(Action::Raise(Event::Established))),
        State::Established => match event {
            Event::UpdateMsg(update) => (State::Established, single(Action::ApplyUpdate(update))),
            Event::LocRibChanged => (State::Established, single(Action::Propagate(Rib::LocRib))),
            Event::AdjRibOutChanged => (
                State::Established,
                single(Action::Propagate(Rib::AdjRibOut)),
            ),
            _ => (State::Established, single(Action::Propagate(Rib::AdjRibIn))),
        },
    }
}

/// One peer session: its configuration and its current state, which only
/// its own transitions change.
#[derive(Debug, Clone, PartialEq, Eq)]
pub struct Peer {
    state: State,
    config: Config,
}

impl Peer {
    pub closed spec fn spec_state(&self) -> State {
        self.state
    }

    pub closed spec fn spec_config(&self) -> Config {
        self.config
    }

    /// A session that has not been started.
    pub fn new(config: Config) -> (r: Peer)
        ensures
            r.spec_state() == State::Idle,
            r.spec_config() == config,
    {
        Peer { state: State::Idle, config }
    }

    #[verifier::when_used_as_spec(spec_state)]
    pub fn state(&self) -> (r: State)
        ensures
            r == self.spec_state(),
    {
        self.state
    }

    #[verifier::when_used_as_spec(spec_config)]
    pub fn config(&self) -> (r: Config)
        ensures
            r == self.spec_config(),
    {
        self.config
    }

    /// Takes one event. Where the current state has a transition for it,
    /// the session moves on and the actions are returned; where it has
    /// none, the session stays as it is and nothing is returned.
    pub fn handle_event(&mut self, event: Event) -> (r: Option<Vec<Action>>)
        ensures
            final(self).spec_config() == old(self).spec_config(),
            r is Some <==> accepts(old(self).spec_state(), event@),
            r is None ==> final(self).spec_state() == old(self).spec_state(),
            r matches Some(actions) ==> is_outcome(
                old(self).spec_state(),
                event@,
                old(self).spec_config(),
                final(self).spec_state(),
                action_views(actions@),
            ),
    {
        if !is_modeled(self.state, &event) {
            return None;
        }
        let (next, actions) = transition(self.state, event, &self.config);
        self.state = next;
        Some(actions)
    }
}

/// The session has a transition for each pair of the protocol's table,
/// whatever message the event carries, and it leads to the state that the
/// table names.
pub proof fn lemma_transition_table(open: OpenView, update: UpdateView)
    ensures
        accepts(State::Idle, EventView::ManualStart),
        next_state(State::Idle, EventView::ManualStart) == State::Connect,
        accepts(State::Connect, EventView::TcpConnectionConfirmed),
        next_state(State::Connect, EventView::TcpConnectionConfirmed) == State::OpenSent,
        accepts(State::OpenSent, EventView::BgpOpen(open)),
        next_state(State::OpenSent, EventView::BgpOpen(open)) == State::OpenConfirm,
        accepts(State::OpenConfirm, EventView::KeepAliveMsg),
        next_state(State::OpenConfirm, EventView::KeepAliveMsg) == State::Established,
        accepts(State::Established, EventView::UpdateMsg(update)),
        next_state(State::Established, EventView::UpdateMsg(update)) == State::Established,
        accepts(State::Established, EventView::LocRibChanged),
        next_state(State::Established, EventView::LocRibChanged) == State::Established,
        accepts(State::Established, EventView::AdjRibOutChanged),
        next_state(State::Established, EventView::AdjRibOutChanged) == State::Established,
        accepts(State::Established, EventView::AdjRibInChanged),
        next_state(State::Established, EventView::AdjRibInChanged) == State::Established,
{
}

/// The session has no transition beside those of the table: in each state
/// it takes the events listed for that state and no other. Every
/// transition asks for exactly one action, and a session that is
/// established stays so.
pub proof fn lemma_transitions_are_listed(state: State, event: EventView, config: Config)
    requires
        accepts(state, event),
    ensures
        state == State::Idle ==> event == EventView::ManualStart,
        state == State::Connect ==> event == EventView::TcpConnectionConfirmed,
        state == State::OpenSent ==> event is BgpOpen,
        state == State::OpenConfirm ==> event == EventView::KeepAliveMsg,
        state == State::Established ==> event is UpdateMsg || event == EventView::LocRibChanged
            || event == EventView::AdjRibOutChanged || event == EventView::AdjRibInChanged,
        effects(state, event, config).len() == 1,
        state == State::Established ==> next_state(state, event) == State::Established,
{
}

/// Two outcomes of the transition from one state on one event, under one
/// configuration, are the same: the result depends on nothing else.
pub proof fn lemma_transition_deterministic(
    state: State,
    event: EventView,
    config: Config,
    next1: State,
    actions1: Seq<ActionView>,
    next2: State,
    actions2: Seq<ActionView>,
)
    requires
        is_outcome(state, event, config, next1, actions1),
        is_outcome(state, event, config, next2, actions2),
    ensures
        next1 == next2,
        actions1 == actions2,
{
}

} // verus!
