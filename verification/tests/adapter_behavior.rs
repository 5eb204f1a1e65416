use raft_io::adapter::{IoError, RaftIo};
use raft_io::mailer::Mailer;
use raft_io::message::Message;
use raft_io::node_id::NodeId;
use raft_io::service::{ServiceHandle, ServiceRequest};
use raft_io::storage::Storage;
use raft_io::timer::{Role, Timer};

fn msg(destination: &str, tag: u8) -> Message {
    Message { destination: String::from(destination), payload: vec![tag] }
}

fn running_adapter(node: u64, delivered: Vec<Message>) -> RaftIo {
    let mut mailer = Mailer::new();
    for m in delivered {
        mailer.deliver(m);
    }
    let service = ServiceHandle::new();
    let storage = Storage::new(NodeId { value: node });
    RaftIo::new(service, storage, mailer, Timer::new()).unwrap()
}

#[test]
fn stop_then_recv_returns_backlog_in_reverse() {
    // Buffered arrivals A, B, C; after stop they come back C, B, A,
    // then "no message" forever, and a send has no observable effect.
    let dest = "0000000000000005";
    let mut io = running_adapter(1, vec![msg(dest, b'A'), msg(dest, b'B'), msg(dest, b'C')]);
    io.stop();
    assert_eq!(io.try_recv_message(), Ok(Some(msg(dest, b'C'))));
    assert_eq!(io.try_recv_message(), Ok(Some(msg(dest, b'B'))));
    assert_eq!(io.try_recv_message(), Ok(Some(msg(dest, b'A'))));
    assert_eq!(io.try_recv_message(), Ok(None));
    io.send_message(msg(dest, b'Z'));
    assert!(io.mailer.is_none());
    assert!(io.remaining_messages.is_empty());
    assert_eq!(io.try_recv_message(), Ok(None));
}

#[test]
fn drain_then_empty_two_messages() {
    let dest = "0000000000000009";
    let mut io = running_adapter(2, vec![msg(dest, 1), msg(dest, 2)]);
    io.stop();
    assert_eq!(io.try_recv_message(), Ok(Some(msg(dest, 2))));
    assert_eq!(io.try_recv_message(), Ok(Some(msg(dest, 1))));
    for _ in 0..5 {
        assert_eq!(io.try_recv_message(), Ok(None));
    }
}

#[test]
fn send_after_stop_has_no_effect() {
    let dest = "0000000000000007";
    let mut io = running_adapter(3, vec![]);
    io.stop();
    io.send_message(msg(dest, 42));
    assert!(io.mailer.is_none());
    assert!(io.remaining_messages.is_empty());
    assert_eq!(io.try_recv_message(), Ok(None));
}

#[test]
fn stop_twice_leaves_same_state_as_once() {
    let dest = "0000000000000004";
    let deliveries = || vec![msg(dest, 10), msg(dest, 11)];
    let mut once = running_adapter(4, deliveries());
    let mut twice = running_adapter(4, deliveries());
    once.stop();
    twice.stop();
    twice.stop();
    assert_eq!(once.mailer, twice.mailer);
    assert_eq!(once.remaining_messages, twice.remaining_messages);
    assert_eq!(once.node_id, twice.node_id);
}

#[test]
fn malformed_destination_send_is_noop() {
    let mut io = running_adapter(5, vec![msg("0000000000000001", 9)]);
    io.send_message(msg("not a node id!!!", 1));
    io.send_message(msg("00000000000000", 2)); // too short
    io.send_message(msg("00000000000000zz", 3)); // bad digits
    let mailer = io.mailer.as_ref().unwrap();
    assert_eq!(mailer.inbox.len(), 1);
    assert!(mailer.outbox.is_empty());
    assert!(io.remaining_messages.is_empty());
}

#[test]
fn well_formed_destination_reaches_mailer() {
    let mut io = running_adapter(6, vec![]);
    io.send_message(msg("00000000000000ff", 7));
    let mailer = io.mailer.as_ref().unwrap();
    assert_eq!(mailer.outbox.len(), 1);
    assert_eq!(mailer.outbox[0].destination, NodeId { value: 255 });
    assert_eq!(mailer.outbox[0].message, msg("00000000000000ff", 7));
}

#[test]
fn recv_from_live_mailer_is_fifo_and_not_permanent() {
    let dest = "0000000000000002";
    let mut io = running_adapter(7, vec![msg(dest, 1), msg(dest, 2)]);
    assert_eq!(io.try_recv_message(), Ok(Some(msg(dest, 1))));
    assert_eq!(io.try_recv_message(), Ok(Some(msg(dest, 2))));
    assert_eq!(io.try_recv_message(), Ok(None));
    // A live mailer can still receive later deliveries.
    io.mailer.as_mut().unwrap().deliver(msg(dest, 3));
    assert_eq!(io.try_recv_message(), Ok(Some(msg(dest, 3))));
}

#[test]
fn recv_error_on_downed_link() {
    let mut mailer = Mailer::new();
    mailer.disconnect();
    let service = ServiceHandle::new();
    let storage = Storage::new(NodeId { value: 8 });
    let mut io = RaftIo::new(service, storage, mailer, Timer::new()).unwrap();
    assert_eq!(io.try_recv_message(), Err(IoError {}));
}

#[test]
fn stop_on_downed_link_drains_nothing() {
    let mut mailer = Mailer::new();
    mailer.deliver(msg("0000000000000001", 1));
    mailer.disconnect();
    let service = ServiceHandle::new();
    let storage = Storage::new(NodeId { value: 9 });
    let mut io = RaftIo::new(service, storage, mailer, Timer::new()).unwrap();
    io.stop();
    assert!(io.remaining_messages.is_empty());
    assert_eq!(io.try_recv_message(), Ok(None));
}

#[test]
fn construction_registers_and_duplicate_is_rejected() {
    let mut service = ServiceHandle::new();
    let probe = Mailer::new();
    service.add_node(NodeId { value: 10 }, &probe).unwrap();
    let storage = Storage::new(NodeId { value: 10 });
    let r = RaftIo::new(service, storage, Mailer::new(), Timer::new());
    assert!(r.is_err());
}

#[test]
fn dispose_deregisters_exactly_once() {
    let id = NodeId { value: 11 };
    let storage = Storage::new(id);
    let io = RaftIo::new(ServiceHandle::new(), storage, Mailer::new(), Timer::new()).unwrap();
    assert_eq!(io.service.nodes, vec![id]);
    // No stop() before disposal: deregistration must still happen.
    let service = io.dispose();
    assert!(service.nodes.is_empty());
    assert_eq!(service.log, vec![ServiceRequest::Add(id), ServiceRequest::Remove(id)]);
}

#[test]
fn dispose_absorbs_deregistration_failure() {
    let id = NodeId { value: 12 };
    // An adapter whose identity the registry does not know: disposal
    // attempts the removal, the failure is absorbed, the registry is
    // left as it was (but for the logged attempt).
    let io = RaftIo {
        node_id: id,
        service: ServiceHandle::new(),
        storage: Storage::new(id),
        mailer: None,
        remaining_messages: Vec::new(),
        timer: Timer::new(),
    };
    let service = io.dispose();
    assert!(service.nodes.is_empty());
    assert_eq!(service.log, vec![ServiceRequest::Remove(id)]);
}

#[test]
fn stop_after_partial_recv_keeps_remaining_order() {
    let dest = "000000000000000a";
    let mut io = running_adapter(13, vec![msg(dest, 1), msg(dest, 2), msg(dest, 3)]);
    assert_eq!(io.try_recv_message(), Ok(Some(msg(dest, 1))));
    io.stop();
    assert_eq!(io.try_recv_message(), Ok(Some(msg(dest, 3))));
    assert_eq!(io.try_recv_message(), Ok(Some(msg(dest, 2))));
    assert_eq!(io.try_recv_message(), Ok(None));
}

#[test]
fn create_timeout_is_scoped_to_the_role() {
    let mut io = running_adapter(14, vec![]);
    assert_eq!(io.create_timeout(Role::Follower).role, Role::Follower);
    assert_eq!(io.create_timeout(Role::Candidate).role, Role::Candidate);
    assert_eq!(io.create_timeout(Role::Leader).role, Role::Leader);
}
