use sw_tunnel::acceptor::{handle_quic_connection, HandshakeError};
use sw_tunnel::identity::VerifierReply;
use sw_tunnel::registry::{RegistryError, TunnelRegistry};

fn reply(status: u16, uid: Option<&str>) -> VerifierReply {
    VerifierReply { status, uid: uid.map(|u| u.to_string()) }
}

#[test]
fn new_registry_is_empty() {
    let registry: TunnelRegistry<u32> = TunnelRegistry::new();
    assert_eq!(registry.len(), 0);
    assert!(!registry.contains("u1"));
    assert_eq!(registry.get("u1"), None);
}

#[test]
fn register_then_look_up() {
    let mut registry = TunnelRegistry::new();
    assert_eq!(registry.register("u1".to_string(), 11u32, false), Ok(None));
    assert_eq!(registry.register("u2".to_string(), 22u32, false), Ok(None));
    assert_eq!(registry.len(), 2);
    assert!(registry.contains("u1"));
    assert_eq!(registry.get("u1"), Some(&11));
    assert_eq!(registry.get("u2"), Some(&22));
    assert_eq!(registry.get("u"), None);
}

#[test]
fn live_uid_is_not_registered_twice() {
    let mut registry = TunnelRegistry::new();
    registry.register("u1".to_string(), 1u32, false).unwrap();
    assert_eq!(registry.register("u1".to_string(), 2, false), Err(RegistryError::AlreadyExists));
    assert_eq!(registry.get("u1"), Some(&1));
    assert_eq!(registry.len(), 1);
}

#[test]
fn closed_connection_is_displaced() {
    let mut registry = TunnelRegistry::new();
    registry.register("u1".to_string(), 1u32, false).unwrap();
    registry.register("u2".to_string(), 5u32, false).unwrap();
    assert_eq!(registry.register("u1".to_string(), 2, true), Ok(Some(1)));
    assert_eq!(registry.get("u1"), Some(&2));
    assert_eq!(registry.get("u2"), Some(&5));
    assert_eq!(registry.len(), 2);
}

#[test]
fn closed_flag_means_nothing_for_a_free_uid() {
    let mut registry = TunnelRegistry::new();
    assert_eq!(registry.register("u1".to_string(), 1u32, true), Ok(None));
    assert_eq!(registry.get("u1"), Some(&1));
}

#[test]
fn remove_takes_the_tunnel_out() {
    let mut registry = TunnelRegistry::new();
    registry.register("u1".to_string(), 1u32, false).unwrap();
    registry.register("u2".to_string(), 2u32, false).unwrap();
    assert_eq!(registry.remove("u1"), Some(1));
    assert_eq!(registry.remove("u1"), None);
    assert!(!registry.contains("u1"));
    assert_eq!(registry.get("u2"), Some(&2));
    assert_eq!(registry.len(), 1);
    assert_eq!(registry.register("u1".to_string(), 3, false), Ok(None));
}

#[test]
fn connector_is_admitted_on_2xx_with_uid() {
    let mut registry = TunnelRegistry::new();
    let admitted = handle_quic_connection(&mut registry, 7u32, reply(200, Some("u1")), false).unwrap();
    assert_eq!(admitted.uid, "u1");
    assert_eq!(admitted.displaced, None);
    assert_eq!(registry.get("u1"), Some(&7));
}

#[test]
fn verifier_reject_leaves_the_registry_as_it_was() {
    let mut registry = TunnelRegistry::new();
    registry.register("u0".to_string(), 1u32, false).unwrap();
    let res = handle_quic_connection(&mut registry, 7u32, reply(403, Some("u1")), false);
    assert_eq!(res.err(), Some(HandshakeError::VerifierRejected));
    assert_eq!(registry.len(), 1);
    assert!(!registry.contains("u1"));
    // A rejected reply does not displace a closed connection either.
    let res = handle_quic_connection(&mut registry, 8u32, reply(500, Some("u0")), true);
    assert_eq!(res.err(), Some(HandshakeError::VerifierRejected));
    assert_eq!(registry.get("u0"), Some(&1));
}

#[test]
fn reply_without_uid_is_refused() {
    let mut registry: TunnelRegistry<u32> = TunnelRegistry::new();
    let res = handle_quic_connection(&mut registry, 7, reply(200, None), false);
    assert_eq!(res.err(), Some(HandshakeError::MalformedReply));
    assert_eq!(registry.len(), 0);
}

#[test]
fn second_connector_with_live_uid_is_turned_away() {
    let mut registry = TunnelRegistry::new();
    handle_quic_connection(&mut registry, 1u32, reply(200, Some("u1")), false).unwrap();
    let res = handle_quic_connection(&mut registry, 2u32, reply(201, Some("u1")), false);
    assert_eq!(res.err(), Some(HandshakeError::AlreadyExists));
    assert_eq!(registry.get("u1"), Some(&1));
    let admitted = handle_quic_connection(&mut registry, 3u32, reply(200, Some("u1")), true).unwrap();
    assert_eq!(admitted.displaced, Some(1));
    assert_eq!(registry.get("u1"), Some(&3));
}

#[test]
fn handshake_errors_have_their_messages() {
    assert_eq!(HandshakeError::VerifierRejected.message(), "Failed to verify client certificate");
    assert_eq!(HandshakeError::AlreadyExists.message(), "Connection already exists");
    assert_eq!(HandshakeError::MalformedReply.message(), "Verifier reply names no uid");
}
