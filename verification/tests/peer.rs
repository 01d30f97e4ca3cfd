use iroh_base::key::SecretKey;
use iroh_willow::handshake::Role;
use iroh_willow::net::PeerConn;

#[test]
fn peer_conn_keeps_ids_and_role() {
    let me = SecretKey::from_bytes(&[1u8; 32]).public();
    let peer = SecretKey::from_bytes(&[2u8; 32]).public();
    let conn = PeerConn::new("a connection", Role::Alfie, me, peer);
    assert_eq!(conn.me(), me);
    assert_eq!(conn.peer(), peer);
    assert_ne!(conn.me(), conn.peer());
    assert_eq!(conn.our_role(), Role::Alfie);
    assert_eq!(*conn.conn(), "a connection");
    let other = PeerConn::new(7u32, Role::Betty, peer, me);
    assert_eq!(other.our_role(), Role::Betty);
    assert_eq!(other.me(), peer);
    assert_eq!(other.peer(), me);
}

#[test]
fn peer_conn_clone_keeps_ids_and_role() {
    let me = SecretKey::from_bytes(&[3u8; 32]).public();
    let peer = SecretKey::from_bytes(&[4u8; 32]).public();
    let conn = PeerConn::new(vec![1u8, 2, 3], Role::Betty, me, peer);
    let copy = conn.clone();
    assert_eq!(copy.peer(), peer);
    assert_eq!(copy.me(), me);
    assert_eq!(copy.our_role(), Role::Betty);
    assert_eq!(copy.conn(), conn.conn());
    assert!(format!("{:?}", copy).contains("Betty"));
}
