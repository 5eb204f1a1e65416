use raft_io::adapter::RaftIo;
use raft_io::mailer::Mailer;
use raft_io::node_id::NodeId;
use raft_io::service::ServiceHandle;
use raft_io::storage::{Ballot, LogIndex, LogPrefix, LogSuffix, Storage, StorageOp};
use raft_io::timer::Timer;

fn adapter(node: u64) -> RaftIo {
    let service = ServiceHandle::new();
    let storage = Storage::new(NodeId { value: node });
    RaftIo::new(service, storage, Mailer::new(), Timer::new()).unwrap()
}

#[test]
fn persistence_requests_are_forwarded_verbatim_in_order() {
    let mut io = adapter(1);
    let ballot = Ballot { term: 3, voted_for: NodeId { value: 9 } };
    let prefix = LogPrefix { tail: LogIndex { value: 10 }, snapshot: vec![1, 2, 3] };
    let suffix = LogSuffix { head: LogIndex { value: 10 }, entries: vec![4, 5] };

    let h0 = io.save_ballot(ballot);
    let h1 = io.load_ballot();
    let h2 = io.save_log_prefix(LogPrefix { tail: prefix.tail, snapshot: prefix.snapshot.clone() });
    let h3 = io.save_log_suffix(LogSuffix { head: suffix.head, entries: suffix.entries.clone() });
    let h4 = io.load_log(LogIndex { value: 2 }, Some(LogIndex { value: 7 }));
    let h5 = io.load_log(LogIndex { value: 2 }, None);

    assert_eq!(
        io.storage.ops,
        vec![
            StorageOp::SaveBallot(ballot),
            StorageOp::LoadBallot,
            StorageOp::SaveLogPrefix(prefix),
            StorageOp::SaveLogSuffix(suffix),
            StorageOp::LoadLog(LogIndex { value: 2 }, Some(LogIndex { value: 7 })),
            StorageOp::LoadLog(LogIndex { value: 2 }, None),
        ]
    );
    assert_eq!(
        (h0.op_index, h1.op_index, h2.op_index, h3.op_index, h4.op_index, h5.op_index),
        (0, 1, 2, 3, 4, 5)
    );
}

#[test]
fn busy_flag_reflects_storage_backpressure() {
    let mut io = adapter(2);
    assert!(!io.is_busy());
    io.storage.set_busy(true);
    assert!(io.is_busy());
    io.storage.set_busy(false);
    assert!(!io.is_busy());
}

#[test]
fn adapter_identity_comes_from_storage() {
    let io = adapter(77);
    assert_eq!(io.node_id, NodeId { value: 77 });
    assert_eq!(io.storage.node_id(), NodeId { value: 77 });
}
