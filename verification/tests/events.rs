use bgp_core::bgp_type::AutonomousSystemNumber;
use bgp_core::error::DecodeError;
use bgp_core::event::Event;
use bgp_core::packets::keepalive::KeepaliveMessage;
use bgp_core::packets::open::OpenMessage;
use bgp_core::packets::update::UpdateMessage;

#[test]
fn arriving_messages_become_events() {
    let open = OpenMessage::new(AutonomousSystemNumber::new(64513), 0x0a00_0002);
    assert_eq!(Event::decode(&open.encode()), Ok(Event::BgpOpen(open)));
    let keepalive = KeepaliveMessage::new();
    assert_eq!(Event::decode(&keepalive.encode()), Ok(Event::KeepAliveMsg(keepalive)));
    let update = UpdateMessage::new(vec![8, 10], vec![0x40, 1, 1, 2], vec![24, 192, 0, 2]).unwrap();
    assert_eq!(Event::decode(&update.encode()), Ok(Event::UpdateMsg(update)));
}

#[test]
fn arriving_garbage_is_rejected() {
    assert_eq!(Event::decode(&[0xff; 10]), Err(DecodeError::TooShort));
    let mut notification = vec![0xff; 16];
    notification.extend_from_slice(&[0, 19, 3]);
    assert_eq!(Event::decode(&notification), Err(DecodeError::UnrecognizedType(3)));
    let mut long_update = vec![0xff; 16];
    long_update.extend_from_slice(&[0, 24, 2, 0, 0, 0, 0]);
    assert_eq!(Event::decode(&long_update), Err(DecodeError::MalformedBody));
    let mut long_keepalive = vec![0xff; 16];
    long_keepalive.extend_from_slice(&[0, 19, 4, 0]);
    assert_eq!(Event::decode(&long_keepalive), Err(DecodeError::MalformedBody));
}
