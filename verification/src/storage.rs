//! The durable-storage facade.
//!
//! The adapter forwards every persistence request to this facade verbatim —
//! no buffering, retry, or validation — and the facade answers each request
//! with an awaitable handle the engine polls to completion. Physical
//! persistence is the storage subsystem's own concern; what matters to the
//! adapter, and what is stated here, is exactly which requests reach the
//! facade and in which order. The facade also reports a backpressure flag
//! and knows the identity of the node it serves.

use vstd::prelude::*;

use crate::node_id::NodeId;

verus! {

/// A persisted record of a node's current term and vote.
#[derive(Clone, Copy, PartialEq, Eq, Structural, Debug)]
pub struct Ballot {
    /// The election term.
    pub term: u64,
    /// The peer this node voted for in that term.
    pub voted_for: NodeId,
}

/// A position in the replicated operation log.
#[derive(Clone, Copy, PartialEq, Eq, Structural, Debug)]
pub struct LogIndex {
    /// Zero-based entry number.
    pub value: u64,
}

/// The earliest retained region of the log: a truncating rewrite that
/// replaces everything up to `tail` with a snapshot.
#[derive(PartialEq, Eq, Debug)]
pub struct LogPrefix {
    /// First index not covered by the snapshot.
    pub tail: LogIndex,
    /// Snapshot bytes; opaque to the adapter.
    pub snapshot: Vec<u8>,
}

/// A contiguous trailing region of the log, appended or overwritten.
#[derive(PartialEq, Eq, Debug)]
pub struct LogSuffix {
    /// Index of the region's first entry.
    pub head: LogIndex,
    /// Encoded entries; opaque to the adapter.
    pub entries: Vec<u8>,
}

/// One persistence request, exactly as the engine issued it.
#[derive(PartialEq, Eq, Debug)]
pub enum StorageOp {
    /// Persist a ballot.
    SaveBallot(Ballot),
    /// Load the persisted ballot.
    LoadBallot,
    /// Rewrite the earliest retained region.
    SaveLogPrefix(LogPrefix),
    /// Append or overwrite a trailing region.
    SaveLogSuffix(LogSuffix),
    /// Read the log from a start index to an optional end index.
    LoadLog(LogIndex, Option<LogIndex>),
}

/// Awaitable handle for a pending ballot write.
#[derive(Clone, Copy, PartialEq, Eq, Structural, Debug)]
pub struct SaveBallot {
    /// Position of the request in the facade's request sequence.
    pub op_index: usize,
}

/// Awaitable handle for a pending ballot read.
#[derive(Clone, Copy, PartialEq, Eq, Structural, Debug)]
pub struct LoadBallot {
    /// Position of the request in the facade's request sequence.
    pub op_index: usize,
}

/// Awaitable handle for a pending log write.
#[derive(Clone, Copy, PartialEq, Eq, Structural, Debug)]
pub struct SaveLog {
    /// Position of the request in the facade's request sequence.
    pub op_index: usize,
}

/// Awaitable handle for a pending log read.
#[derive(Clone, Copy, PartialEq, Eq, Structural, Debug)]
pub struct LoadLog {
    /// Position of the request in the facade's request sequence.
    pub op_index: usize,
}

/// The storage facade one node's adapter delegates to.
#[derive(PartialEq, Eq, Debug)]
pub struct Storage {
    /// Identity of the node this storage belongs to.
    pub node_id: NodeId,
    /// Backpressure: whether storage asks the engine to throttle.
    pub busy: bool,
    /// Every request received so far, in arrival order.
    pub ops: Vec<StorageOp>,
}

impl Storage {
    /// A fresh facade for the node identified by `node_id`.
    pub fn new(node_id: NodeId) -> (s: Storage)
        ensures
            s.node_id == node_id,
            !s.busy,
            s.ops@ == Seq::<StorageOp>::empty(),
    {
        Storage { node_id, busy: false, ops: Vec::new() }
    }

    /// The identity of the node this storage serves.
    pub fn node_id(&self) -> (id: NodeId)
        ensures
            id == self.node_id,
    {
        self.node_id
    }

    /// Storage side: raises or clears the backpressure flag.
    pub fn set_busy(&mut self, busy: bool)
        ensures
            final(self).node_id == old(self).node_id,
            final(self).ops == old(self).ops,
            final(self).busy == busy,
    {
        self.busy = busy;
    }

    /// Whether the engine should throttle further persistence requests.
    pub fn is_busy(&self) -> (b: bool)
        ensures
            b == self.busy,
    {
        self.busy
    }

    /// Accepts a ballot write and answers with its awaitable handle.
    pub fn save_ballot(&mut self, ballot: Ballot) -> (h: SaveBallot)
        ensures
            final(self).ops@ == old(self).ops@.push(StorageOp::SaveBallot(ballot)),
            h.op_index == old(self).ops@.len(),
            final(self).node_id == old(self).node_id,
            final(self).busy == old(self).busy,
    {
        let op_index = self.ops.len();
        self.ops.push(StorageOp::SaveBallot(ballot));
        SaveBallot { op_index }
    }

    /// Accepts a ballot read and answers with its awaitable handle.
    pub fn load_ballot(&mut self) -> (h: LoadBallot)
        ensures
            final(self).ops@ == old(self).ops@.push(StorageOp::LoadBallot),
            h.op_index == old(self).ops@.len(),
            final(self).node_id == old(self).node_id,
            final(self).busy == old(self).busy,
    {
        let op_index = self.ops.len();
        self.ops.push(StorageOp::LoadBallot);
        LoadBallot { op_index }
    }

    /// Accepts a truncating prefix write and answers with its handle.
    pub fn save_log_prefix(&mut self, prefix: LogPrefix) -> (h: SaveLog)
        ensures
            final(self).ops@ == old(self).ops@.push(StorageOp::SaveLogPrefix(prefix)),
            h.op_index == old(self).ops@.len(),
            final(self).node_id == old(self).node_id,
            final(self).busy == old(self).busy,
    {
        let op_index = self.ops.len();
        self.ops.push(StorageOp::SaveLogPrefix(prefix));
        SaveLog { op_index }
    }

    /// Accepts a trailing suffix write and answers with its handle.
    pub fn save_log_suffix(&mut self, suffix: LogSuffix) -> (h: SaveLog)
        ensures
            final(self).ops@ == old(self).ops@.push(StorageOp::SaveLogSuffix(suffix)),
            h.op_index == old(self).ops@.len(),
            final(self).node_id == old(self).node_id,
            final(self).busy == old(self).busy,
    {
        let op_index = self.ops.len();
        self.ops.push(StorageOp::SaveLogSuffix(suffix));
        SaveLog { op_index }
    }

    /// Accepts a ranged log read and answers with its awaitable handle.
    pub fn load_log(&mut self, start: LogIndex, end: Option<LogIndex>) -> (h: LoadLog)
        ensures
            final(self).ops@ == old(self).ops@.push(StorageOp::LoadLog(start, end)),
            h.op_index == old(self).ops@.len(),
            final(self).node_id == old(self).node_id,
            final(self).busy == old(self).busy,
    {
        let op_index = self.ops.len();
        self.ops.push(StorageOp::LoadLog(start, end));
        LoadLog { op_index }
    }
}

} // verus!
