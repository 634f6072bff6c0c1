use esp_now_blinky::MacAddress;
use esp_now_blinky::radio::{Frame, RadioError, RadioSession, broadcast_address, greeting_payload};
use esp_now_blinky::registry::{PeerEntry, PeerRegistry, RegistryError};

fn broadcast_frame(src: [u8; 6], payload: &[u8]) -> Frame {
    Frame {
        src: MacAddress(src),
        dst: broadcast_address(),
        payload: payload.to_vec(),
    }
}

#[test]
fn first_broadcast_registers_and_greets_once() {
    let mut session = RadioSession::new(8);
    let src = [0xaa, 0xbb, 0xcc, 0xdd, 0xee, 0xff];
    let first = session.process_frame(&broadcast_frame(src, b"ping"));
    let cmd = first.expect("first contact owes a greeting");
    assert_eq!(cmd.dest.0, src);
    assert_eq!(cmd.payload, b"Hello Peer".to_vec());
    assert_eq!(session.peer_count(), 1);
    assert!(session.peer_exists(&MacAddress(src)));

    let second = session.process_frame(&broadcast_frame(src, b"ping"));
    assert!(second.is_none(), "a known sender is not greeted again");
    assert_eq!(session.peer_count(), 1, "no duplicate registration");
}

#[test]
fn unicast_frame_never_promotes_sender() {
    let mut session = RadioSession::new(8);
    let frame = Frame {
        src: MacAddress([1, 2, 3, 4, 5, 6]),
        dst: MacAddress([9, 9, 9, 9, 9, 9]),
        payload: b"hello".to_vec(),
    };
    assert!(session.process_frame(&frame).is_none());
    assert_eq!(session.peer_count(), 0);
}

#[test]
fn broadcast_sender_is_never_registered() {
    let mut session = RadioSession::new(8);
    let frame = Frame {
        src: broadcast_address(),
        dst: broadcast_address(),
        payload: b"x".to_vec(),
    };
    assert!(session.process_frame(&frame).is_none());
    assert_eq!(session.peer_count(), 0);
}

#[test]
fn full_table_abandons_the_attempt() {
    let mut session = RadioSession::new(1);
    assert!(session.process_frame(&broadcast_frame([1, 0, 0, 0, 0, 1], b"a")).is_some());
    assert!(session.process_frame(&broadcast_frame([1, 0, 0, 0, 0, 2], b"b")).is_none());
    assert_eq!(session.peer_count(), 1);
    // the earlier peer is untouched and still known
    assert!(session.peer_exists(&MacAddress([1, 0, 0, 0, 0, 1])));
}

#[test]
fn registry_error_variants() {
    let mut reg = PeerRegistry::new(1);
    let a = MacAddress([1, 2, 3, 4, 5, 6]);
    assert_eq!(
        reg.add_peer(PeerEntry { address: broadcast_address(), encrypt: false }),
        Err(RegistryError::MalformedEntry)
    );
    assert_eq!(
        reg.add_peer(PeerEntry { address: a, encrypt: true }),
        Err(RegistryError::MalformedEntry)
    );
    assert_eq!(reg.add_peer(PeerEntry::for_address(a)), Ok(()));
    assert_eq!(
        reg.add_peer(PeerEntry::for_address(a)),
        Err(RegistryError::TableFull),
        "capacity is checked before duplication"
    );
    let mut reg2 = PeerRegistry::new(4);
    assert_eq!(reg2.add_peer(PeerEntry::for_address(a)), Ok(()));
    assert_eq!(
        reg2.add_peer(PeerEntry::for_address(a)),
        Err(RegistryError::DuplicatePeer)
    );
    assert_eq!(reg2.len(), 1);
    assert_eq!(reg2.peer_at(0).0, a.0);
}

#[test]
fn send_validation() {
    let mut session = RadioSession::new(4);
    let peer = MacAddress([1, 2, 3, 4, 5, 6]);
    let stranger = MacAddress([6, 5, 4, 3, 2, 1]);
    session.add_peer(PeerEntry::for_address(peer)).unwrap();

    let ok = session.prepare_send(peer, b"hi".to_vec()).unwrap();
    assert_eq!(ok.dest.0, peer.0);
    assert_eq!(ok.payload, b"hi".to_vec());

    let bc = session.prepare_send(broadcast_address(), b"hi".to_vec()).unwrap();
    assert!(bc.dest.is_broadcast());

    assert_eq!(
        session.prepare_send(stranger, b"hi".to_vec()),
        Err(RadioError::UnknownDestination)
    );
    assert_eq!(
        session.prepare_send(peer, vec![0u8; 251]),
        Err(RadioError::PayloadTooLong)
    );
    assert!(session.prepare_send(peer, vec![0u8; 250]).is_ok());
}

#[test]
fn channel_configuration() {
    let mut session = RadioSession::new(4);
    assert_eq!(session.current_channel(), None);
    assert_eq!(session.set_channel(0), Err(RadioError::InvalidChannel));
    assert_eq!(session.set_channel(15), Err(RadioError::InvalidChannel));
    assert_eq!(session.current_channel(), None);
    assert_eq!(session.set_channel(11), Ok(()));
    assert_eq!(session.current_channel(), Some(11));
}

#[test]
fn greeting_payload_text() {
    assert_eq!(greeting_payload(), b"Hello Peer".to_vec());
}
