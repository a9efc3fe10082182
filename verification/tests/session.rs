use bgp_core::bgp_type::AutonomousSystemNumber;
use bgp_core::config::Config;
use bgp_core::event::Event;
use bgp_core::packets::keepalive::KeepaliveMessage;
use bgp_core::packets::message::Message;
use bgp_core::packets::open::OpenMessage;
use bgp_core::packets::update::UpdateMessage;
use bgp_core::peer::{is_modeled, transition, Action, Peer, Rib};
use bgp_core::state::State;

fn config() -> Config {
    Config::new(AutonomousSystemNumber::new(64512), 0x7f00_0001, 0x7f00_0002)
}

fn peer_open() -> OpenMessage {
    OpenMessage::new(AutonomousSystemNumber::new(64513), 0x7f00_0002)
}

fn update() -> UpdateMessage {
    UpdateMessage::new(vec![], vec![0x40, 1, 1, 0], vec![24, 10, 100, 220]).unwrap()
}

fn all_states() -> Vec<State> {
    vec![State::Idle, State::Connect, State::OpenSent, State::OpenConfirm, State::Established]
}

fn all_events() -> Vec<Event> {
    vec![
        Event::ManualStart,
        Event::TcpConnectionConfirmed,
        Event::BgpOpen(peer_open()),
        Event::KeepAliveMsg(KeepaliveMessage::new()),
        Event::UpdateMsg(update()),
        Event::Established,
        Event::LocRibChanged,
        Event::AdjRibOutChanged,
        Event::AdjRibInChanged,
    ]
}

#[test]
fn idle_on_manual_start_goes_to_connect() {
    let (next, actions) = transition(State::Idle, Event::ManualStart, &config());
    assert_eq!(next, State::Connect);
    assert_eq!(actions, vec![Action::Connect]);
}

#[test]
fn connect_on_confirmed_connection_sends_local_open() {
    let (next, actions) = transition(State::Connect, Event::TcpConnectionConfirmed, &config());
    assert_eq!(next, State::OpenSent);
    assert_eq!(
        actions,
        vec![Action::Send(Message::new_open(AutonomousSystemNumber::new(64512), 0x7f00_0001))]
    );
    match &actions[0] {
        Action::Send(Message::Open(open)) => {
            assert_eq!(open.my_as_number().value(), 64512);
            assert_eq!(open.bgp_identifier(), 0x7f00_0001);
        }
        _ => panic!("an Open message is sent"),
    }
}

#[test]
fn open_sent_on_open_sends_keepalive() {
    let (next, actions) = transition(State::OpenSent, Event::BgpOpen(peer_open()), &config());
    assert_eq!(next, State::OpenConfirm);
    assert_eq!(actions, vec![Action::Send(Message::new_keepalive())]);
}

#[test]
fn open_confirm_on_keepalive_is_established() {
    let (next, actions) =
        transition(State::OpenConfirm, Event::KeepAliveMsg(KeepaliveMessage::new()), &config());
    assert_eq!(next, State::Established);
    assert_eq!(actions, vec![Action::Raise(Event::Established)]);
}

#[test]
fn established_hands_updates_on() {
    let (next, actions) = transition(State::Established, Event::UpdateMsg(update()), &config());
    assert_eq!(next, State::Established);
    assert_eq!(actions, vec![Action::ApplyUpdate(update())]);
}

#[test]
fn established_propagates_table_changes() {
    let cases = [
        (Event::LocRibChanged, Rib::LocRib),
        (Event::AdjRibOutChanged, Rib::AdjRibOut),
        (Event::AdjRibInChanged, Rib::AdjRibIn),
    ];
    for (event, table) in cases {
        let (next, actions) = transition(State::Established, event, &config());
        assert_eq!(next, State::Established);
        assert_eq!(actions, vec![Action::Propagate(table)]);
    }
}

#[test]
fn only_the_listed_pairs_are_modeled() {
    let mut modeled = 0;
    for state in all_states() {
        for event in all_events() {
            let listed = matches!(
                (state, &event),
                (State::Idle, Event::ManualStart)
                    | (State::Connect, Event::TcpConnectionConfirmed)
                    | (State::OpenSent, Event::BgpOpen(_))
                    | (State::OpenConfirm, Event::KeepAliveMsg(_))
                    | (State::Established, Event::UpdateMsg(_))
                    | (State::Established, Event::LocRibChanged)
                    | (State::Established, Event::AdjRibOutChanged)
                    | (State::Established, Event::AdjRibInChanged)
            );
            assert_eq!(is_modeled(state, &event), listed);
            if listed {
                modeled += 1;
            }
        }
    }
    assert_eq!(modeled, 8);
}

#[test]
fn transition_gives_the_same_result_twice() {
    for state in all_states() {
        for event in all_events() {
            if is_modeled(state, &event) {
                let first = transition(state, event.clone(), &config());
                let second = transition(state, event.clone(), &config());
                assert_eq!(first, second);
                assert_eq!(first.1.len(), 1);
            }
        }
    }
}

#[test]
fn peer_walks_the_handshake() {
    let mut peer = Peer::new(config());
    assert_eq!(peer.state(), State::Idle);
    assert_eq!(peer.config(), config());
    assert_eq!(peer.handle_event(Event::ManualStart), Some(vec![Action::Connect]));
    assert_eq!(peer.state(), State::Connect);
    assert_eq!(
        peer.handle_event(Event::TcpConnectionConfirmed),
        Some(vec![Action::Send(Message::new_open(
            AutonomousSystemNumber::new(64512),
            0x7f00_0001
        ))])
    );
    assert_eq!(peer.state(), State::OpenSent);
    assert_eq!(
        peer.handle_event(Event::BgpOpen(peer_open())),
        Some(vec![Action::Send(Message::new_keepalive())])
    );
    assert_eq!(peer.state(), State::OpenConfirm);
    assert_eq!(
        peer.handle_event(Event::KeepAliveMsg(KeepaliveMessage::new())),
        Some(vec![Action::Raise(Event::Established)])
    );
    assert_eq!(peer.state(), State::Established);
    assert_eq!(
        peer.handle_event(Event::UpdateMsg(update())),
        Some(vec![Action::ApplyUpdate(update())])
    );
    assert_eq!(peer.state(), State::Established);
    assert_eq!(peer.config(), config());
}

#[test]
fn peer_stays_on_an_event_without_transition() {
    let mut peer = Peer::new(config());
    assert_eq!(peer.handle_event(Event::TcpConnectionConfirmed), None);
    assert_eq!(peer.state(), State::Idle);
    assert_eq!(peer.handle_event(Event::Established), None);
    assert_eq!(peer.state(), State::Idle);
    assert_eq!(peer.handle_event(Event::ManualStart), Some(vec![Action::Connect]));
    assert_eq!(peer.handle_event(Event::ManualStart), None);
    assert_eq!(peer.state(), State::Connect);
}
