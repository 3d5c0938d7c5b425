use sw_tunnel::control::{
    begin_open, close, edge_address, finish_open, list, port_string, BindOutcome, CloseRequest,
    OpenRequest,
};
use sw_tunnel::ports::{BoundPort, PortEntry, PortRegistry};
use sw_tunnel::registry::TunnelRegistry;

fn request(uid: &str, port: u16) -> OpenRequest {
    OpenRequest {
        uid: uid.to_string(),
        port,
        connect_address: "127.0.0.1".to_string(),
        connect_port: 9000,
    }
}

fn tunnels() -> TunnelRegistry<u32> {
    let mut tunnels = TunnelRegistry::new();
    tunnels.register("u1".to_string(), 1, false).unwrap();
    tunnels
}

fn open(ports: &mut PortRegistry<u32>, uid: &str, port: u16, task: u32) -> u16 {
    match begin_open(&tunnels(), request(uid, port)) {
        Ok(pending) => finish_open(ports, pending, BindOutcome::Bound(task)).0.status,
        Err(response) => response.status,
    }
}

#[test]
fn open_for_unknown_uid_is_refused() {
    let response = begin_open(&tunnels(), request("nope", 18123)).err().unwrap();
    assert_eq!(response.status, 500);
    assert!(response.body.contains("No QUIC connection"));
    assert_eq!(response.body, "No QUIC connection exists for the specified UID.");
}

#[test]
fn open_for_known_uid_asks_for_the_bind() {
    let pending = begin_open(&tunnels(), request("u1", 18122)).ok().unwrap();
    assert_eq!(pending.port(), 18122);
    assert_eq!(pending.uid(), "u1");
    assert_eq!(pending.edge_target(), "127.0.0.1:9000");
}

#[test]
fn open_records_the_port_once_it_is_bound() {
    let mut ports: PortRegistry<u32> = PortRegistry::new();
    let pending = begin_open(&tunnels(), request("u1", 18122)).ok().unwrap();
    let (response, displaced) = finish_open(&mut ports, pending, BindOutcome::Bound(77));
    assert_eq!(response.status, 200);
    assert_eq!(response.body, "TcpListener created successfully!");
    assert!(displaced.is_none());
    assert!(ports.contains(18122));
    assert_eq!(ports.len(), 1);
}

#[test]
fn duplicate_bind_is_answered_with_500() {
    let mut ports: PortRegistry<u32> = PortRegistry::new();
    assert_eq!(open(&mut ports, "u1", 18122, 1), 200);
    let pending = begin_open(&tunnels(), request("u1", 18122)).ok().unwrap();
    let (response, displaced) =
        finish_open(&mut ports, pending, BindOutcome::Failed("Address already in use".to_string()));
    assert_eq!(response.status, 500);
    assert_eq!(response.body, "Failed to create TcpListener: Address already in use");
    assert!(displaced.is_none());
    assert_eq!(ports.len(), 1);
}

#[test]
fn open_on_a_recorded_port_hands_back_the_old_entry() {
    let mut ports: PortRegistry<u32> = PortRegistry::new();
    assert_eq!(open(&mut ports, "u1", 18122, 1), 200);
    let pending = begin_open(&tunnels(), request("u1", 18122)).ok().unwrap();
    let (response, displaced) = finish_open(&mut ports, pending, BindOutcome::Bound(2));
    assert_eq!(response.status, 200);
    let old: BoundPort<u32> = displaced.unwrap();
    assert_eq!(old.task, 1);
    assert_eq!(ports.len(), 1);
}

#[test]
fn close_cancels_an_open_port() {
    let mut ports: PortRegistry<u32> = PortRegistry::new();
    open(&mut ports, "u1", 18122, 42);
    let (response, task) = close(&mut ports, CloseRequest { port: 18122 });
    assert_eq!(response.status, 200);
    assert_eq!(response.body, "Task 18122 canceled");
    assert_eq!(task, Some(42));
    assert!(!ports.contains(18122));
}

#[test]
fn close_of_a_port_that_is_not_open_is_not_found() {
    let mut ports: PortRegistry<u32> = PortRegistry::new();
    open(&mut ports, "u1", 18122, 42);
    let (response, task) = close(&mut ports, CloseRequest { port: 80 });
    assert_eq!(response.status, 404);
    assert_eq!(response.body, "Task 80 not found");
    assert_eq!(task, None);
    assert_eq!(ports.len(), 1);
    let (again, _) = close(&mut ports, CloseRequest { port: 0 });
    assert_eq!(again.body, "Task 0 not found");
}

#[test]
fn open_close_open_ends_as_a_single_open() {
    let mut twice: PortRegistry<u32> = PortRegistry::new();
    assert_eq!(open(&mut twice, "u1", 18122, 1), 200);
    assert_eq!(close(&mut twice, CloseRequest { port: 18122 }).0.status, 200);
    assert_eq!(open(&mut twice, "u1", 18122, 2), 200);
    let mut once: PortRegistry<u32> = PortRegistry::new();
    assert_eq!(open(&mut once, "u1", 18122, 2), 200);
    assert_eq!(list(&twice), list(&once));
    assert_eq!(twice.remove(18122).map(|b| b.task), once.remove(18122).map(|b| b.task));
}

#[test]
fn list_shows_exactly_the_open_ports() {
    let mut ports: PortRegistry<u32> = PortRegistry::new();
    assert_eq!(list(&ports), Vec::new());
    open(&mut ports, "u1", 18122, 1);
    open(&mut ports, "u1", 18123, 2);
    open(&mut ports, "u1", 65535, 3);
    close(&mut ports, CloseRequest { port: 18123 });
    let mut entries = list(&ports);
    entries.sort_by_key(|e| e.port);
    let entry = |port: u16| PortEntry {
        port,
        uid: "u1".to_string(),
        connect_address: "127.0.0.1".to_string(),
        connect_port: 9000,
    };
    assert_eq!(entries, vec![entry(18122), entry(65535)]);
}

#[test]
fn ports_and_edge_addresses_are_written_in_decimal() {
    assert_eq!(port_string(0), "0");
    assert_eq!(port_string(9), "9");
    assert_eq!(port_string(18122), "18122");
    assert_eq!(port_string(65535), "65535");
    assert_eq!(edge_address("edge.example", 443), "edge.example:443");
    assert_eq!(edge_address("", 0), ":0");
}
