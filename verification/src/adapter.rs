//! The I/O adapter the consensus engine drives.
//!
//! `RaftIo` composes the four collaborators — service registry, storage
//! facade, mailer, timer — into the single contract the engine depends on.
//! It performs no consensus logic: only message dispatch, destination
//! parsing, persistence delegation, and lifecycle bookkeeping.
//!
//! The dispatch behaviour is captured by the mathematical state [`IoState`]
//! and the transition functions [`stop_step`], [`recv_step`] and
//! [`send_step`]; each method's contract ties the adapter to the
//! corresponding transition, and the laws at the end of this module are
//! proved over the transitions alone.

use vstd::prelude::*;

use crate::mailer::Mailer;
use crate::mailer::MailerModel;
use crate::mailer::spec_recv_outcome;
use crate::mailer::spec_recv_step;
use crate::mailer::spec_send_step;
use crate::message::Message;
use crate::node_id::NodeId;
use crate::node_id::parse_node_id;
use crate::node_id::spec_parse_node_id;
use crate::service::RegistrationError;
use crate::service::ServiceHandle;
use crate::service::ServiceRequest;
use crate::storage::Ballot;
use crate::storage::LoadBallot;
use crate::storage::LoadLog;
use crate::storage::LogIndex;
use crate::storage::LogPrefix;
use crate::storage::LogSuffix;
use crate::storage::SaveBallot;
use crate::storage::SaveLog;
use crate::storage::Storage;
use crate::storage::StorageOp;
use crate::timer::Role;
use crate::timer::Timeout;
use crate::timer::Timer;

verus! {

/// An adapter-level I/O failure, surfaced to the engine when a receive
/// attempt on the mailer fails.
#[derive(Clone, Copy, PartialEq, Eq, Structural, Debug)]
pub struct IoError {}

/// The adapter's dispatch state: the mailer it still holds, if any, and
/// the backlog of messages captured while stopping, in capture order.
#[verifier::ext_equal]
pub ghost struct IoState {
    /// The mailer's state while one is held; absent once stopped.
    pub mailer: Option<MailerModel>,
    /// Messages captured during stop and not yet handed to the engine.
    pub backlog: Seq<Message>,
}

/// What a stop drains out of the mailer: every message a healthy mailer
/// still buffered, in receive order; nothing from a downed or absent one
/// (drainage stops at the first error or empty receive).
pub open spec fn drained(mailer: Option<MailerModel>) -> Seq<Message> {
    match mailer {
        None => Seq::empty(),
        Some(m) => if m.healthy {
            m.inbox
        } else {
            Seq::empty()
        },
    }
}

/// The dispatch state after a stop: the mailer is gone — once and for
/// all — and whatever it still buffered now sits at the end of the
/// backlog.
pub open spec fn stop_step(s: IoState) -> IoState {
    IoState { mailer: None, backlog: s.backlog + drained(s.mailer) }
}

/// What one receive poll returns: the most recently captured backlog
/// entry first; otherwise one non-blocking mailer attempt, its failure
/// surfaced as an [`IoError`]; otherwise — mailer gone, backlog spent —
/// no message, permanently.
pub open spec fn recv_outcome(s: IoState) -> Result<Option<Message>, IoError> {
    if s.backlog.len() > 0 {
        Ok(Some(s.backlog.last()))
    } else {
        match s.mailer {
            Some(m) => match spec_recv_outcome(m) {
                Ok(o) => Ok(o),
                Err(_) => Err(IoError {}),
            },
            None => Ok(None),
        }
    }
}

/// The dispatch state after one receive poll.
pub open spec fn recv_step(s: IoState) -> IoState {
    if s.backlog.len() > 0 {
        IoState { mailer: s.mailer, backlog: s.backlog.drop_last() }
    } else {
        match s.mailer {
            Some(m) => IoState { mailer: Some(spec_recv_step(m)), backlog: s.backlog },
            None => s,
        }
    }
}

/// The dispatch state after a send: the message goes to the mailer when
/// its destination parses and a mailer is present; on a malformed
/// destination, or once stopped, the send is abandoned and nothing
/// changes.
pub open spec fn send_step(s: IoState, message: Message) -> IoState {
    match spec_parse_node_id(message.destination@) {
        None => s,
        Some(destination) => match s.mailer {
            None => s,
            Some(m) => IoState {
                mailer: Some(spec_send_step(m, destination, message)),
                backlog: s.backlog,
            },
        },
    }
}

/// The I/O adapter: the engine's single window onto transport, storage,
/// timeouts and cluster membership.
pub struct RaftIo {
    /// This node's identity; immutable after construction.
    pub node_id: NodeId,
    /// Handle onto the service registry.
    pub service: ServiceHandle,
    /// The storage facade persistence requests are forwarded to.
    pub storage: Storage,
    /// The mailer; absent once a stop request has arrived, never restored.
    pub mailer: Option<Mailer>,
    /// Messages already received before stopping, in receive order; they
    /// are handed out most recent first, before anything else.
    pub remaining_messages: Vec<Message>,
    /// The timeout source.
    pub timer: Timer,
}

impl RaftIo {
    /// The adapter's dispatch state.
    pub open spec fn io_state(&self) -> IoState {
        IoState {
            mailer: match self.mailer {
                Some(m) => Some(m@),
                None => None,
            },
            backlog: self.remaining_messages@,
        }
    }

    /// Well-formedness: the backlog is only ever populated during stop,
    /// so it is empty while a mailer is held; and the registry handle is
    /// well-formed.
    pub open spec fn wf(&self) -> bool {
        &&& (self.mailer is Some ==> self.remaining_messages@.len() == 0)
        &&& self.service.wf()
    }

    /// Builds a running adapter bound to the identity storage reports,
    /// registering that identity — and the mailer it is reachable through —
    /// with the service registry.
    ///
    /// Succeeds exactly when the registry accepts the identity; a rejected
    /// (duplicate) identity aborts construction, and no adapter exists.
    pub fn new(service: ServiceHandle, storage: Storage, mailer: Mailer, timer: Timer) -> (r:
        Result<RaftIo, RegistrationError>)
        requires
            service.wf(),
        ensures
            r is Ok <==> !service.nodes@.contains(storage.node_id),
            r matches Ok(io) ==> {
                &&& io.node_id == storage.node_id
                &&& io.service.nodes@ == service.nodes@.push(storage.node_id)
                &&& io.service.log@ == service.log@.push(ServiceRequest::Add(storage.node_id))
                &&& io.storage == storage
                &&& io.io_state() == (IoState { mailer: Some(mailer@), backlog: Seq::empty() })
                &&& io.timer == timer
                &&& io.wf()
            },
    {
        let mut service = service;
        let node_id = storage.node_id();
        match service.add_node(node_id, &mailer) {
            Err(e) => Err(e),
            Ok(()) => Ok(RaftIo {
                node_id,
                service,
                storage,
                mailer: Some(mailer),
                remaining_messages: Vec::new(),
                timer,
            }),
        }
    }

    /// Stops this adapter: drains every message the mailer still buffers
    /// into the backlog (in receive order; drainage stops at the first
    /// error or empty receive), then severs the mailer for good. Stopping
    /// an already stopped adapter is a no-op.
    pub fn stop(&mut self)
        ensures
            final(self).io_state() == stop_step(old(self).io_state()),
            final(self).node_id == old(self).node_id,
            final(self).service == old(self).service,
            final(self).storage == old(self).storage,
            final(self).timer == old(self).timer,
            old(self).wf() ==> final(self).wf(),
    {
        let taken = self.mailer.take();
        match taken {
            None => {
                proof {
                    assert(self.io_state() =~= stop_step(old(self).io_state()));
                }
            },
            Some(mut mailer) => {
                let ghost m0 = mailer@;
                let ghost start = self.remaining_messages@;
                let ghost mut k: int = 0;
                loop
                    invariant
                        0 <= k <= m0.inbox.len(),
                        mailer@.healthy == m0.healthy,
                        mailer@.inbox == m0.inbox.skip(k),
                        self.remaining_messages@ == start + m0.inbox.take(k),
                        !m0.healthy ==> k == 0,
                        self.mailer is None,
                        self.node_id == old(self).node_id,
                        self.service == old(self).service,
                        self.storage == old(self).storage,
                        self.timer == old(self).timer,
                    ensures
                        self.remaining_messages@ == start + drained(Some(m0)),
                        self.mailer is None,
                        self.node_id == old(self).node_id,
                        self.service == old(self).service,
                        self.storage == old(self).storage,
                        self.timer == old(self).timer,
                    decreases m0.inbox.len() - k,
                {
                    match mailer.try_recv_message() {
                        Ok(Some(message)) => {
                            self.remaining_messages.push(message);
                            proof {
                                assert(m0.inbox.skip(k).first() == m0.inbox[k]);
                                assert(m0.inbox.skip(k).drop_first() =~= m0.inbox.skip(k + 1));
                                assert(m0.inbox.take(k).push(m0.inbox[k]) =~= m0.inbox.take(k + 1));
                                k = k + 1;
                            }
                        },
                        Ok(None) => {
                            proof {
                                assert(m0.inbox.skip(k).len() == 0);
                                assert(k == m0.inbox.len());
                                assert(start + m0.inbox.take(k) =~= start + drained(Some(m0)));
                            }
                            break;
                        },
                        Err(_) => {
                            proof {
                                assert(start + m0.inbox.take(0) =~= start + drained(Some(m0)));
                            }
                            break;
                        },
                    }
                }
                proof {
                    assert(self.io_state().backlog =~= stop_step(old(self).io_state()).backlog);
                    assert(self.io_state() =~= stop_step(old(self).io_state()));
                }
            },
        }
    }

    /// One non-blocking poll for an inbound message: the most recently
    /// captured backlog entry if any; else one receive attempt on the
    /// mailer, a failure surfaced as an [`IoError`]; else — stopped and
    /// backlog spent — no message, permanently.
    pub fn try_recv_message(&mut self) -> (r: Result<Option<Message>, IoError>)
        ensures
            r == recv_outcome(old(self).io_state()),
            final(self).io_state() == recv_step(old(self).io_state()),
            final(self).node_id == old(self).node_id,
            final(self).service == old(self).service,
            final(self).storage == old(self).storage,
            final(self).timer == old(self).timer,
            old(self).wf() ==> final(self).wf(),
    {
        let popped = self.remaining_messages.pop();
        if let Some(message) = popped {
            proof {
                assert(self.remaining_messages@ =~= old(self).remaining_messages@.drop_last());
                assert(self.io_state() =~= recv_step(old(self).io_state()));
            }
            return Ok(Some(message));
        }
        match &mut self.mailer {
            Some(mailer) => {
                let received = mailer.try_recv_message();
                match received {
                    Ok(o) => Ok(o),
                    Err(_) => Err(IoError {}),
                }
            },
            None => Ok(None),
        }
    }

    /// Best-effort, non-blocking delivery of an outbound message.
    ///
    /// The destination header is parsed into a node identity; a malformed
    /// destination abandons the send with no effect on the adapter, and
    /// the engine is not told (its own retry and timeout mechanisms
    /// compensate for lost messages). With a parsed destination and a
    /// mailer still present, the message is handed over for asynchronous
    /// delivery; once stopped, the send is silently dropped.
    pub fn send_message(&mut self, message: Message)
        ensures
            final(self).io_state() == send_step(old(self).io_state(), message),
            final(self).node_id == old(self).node_id,
            final(self).service == old(self).service,
            final(self).storage == old(self).storage,
            final(self).timer == old(self).timer,
            old(self).wf() ==> final(self).wf(),
    {
        let parsed = parse_node_id(message.destination.as_str());
        match parsed {
            None => {},
            Some(node) => {
                match &mut self.mailer {
                    Some(mailer) => {
                        mailer.send_message(&node, message);
                    },
                    None => {},
                }
            },
        }
    }

    /// Forwards a ballot write to storage, verbatim.
    pub fn save_ballot(&mut self, ballot: Ballot) -> (h: SaveBallot)
        ensures
            final(self).storage.ops@ == old(self).storage.ops@.push(StorageOp::SaveBallot(ballot)),
            h.op_index == old(self).storage.ops@.len(),
            final(self).storage.node_id == old(self).storage.node_id,
            final(self).storage.busy == old(self).storage.busy,
            final(self).io_state() == old(self).io_state(),
            final(self).node_id == old(self).node_id,
            final(self).service == old(self).service,
            final(self).timer == old(self).timer,
            old(self).wf() ==> final(self).wf(),
    {
        self.storage.save_ballot(ballot)
    }

    /// Forwards a ballot read to storage, verbatim.
    pub fn load_ballot(&mut self) -> (h: LoadBallot)
        ensures
            final(self).storage.ops@ == old(self).storage.ops@.push(StorageOp::LoadBallot),
            h.op_index == old(self).storage.ops@.len(),
            final(self).storage.node_id == old(self).storage.node_id,
            final(self).storage.busy == old(self).storage.busy,
            final(self).io_state() == old(self).io_state(),
            final(self).node_id == old(self).node_id,
            final(self).service == old(self).service,
            final(self).timer == old(self).timer,
            old(self).wf() ==> final(self).wf(),
    {
        self.storage.load_ballot()
    }

    /// Forwards a truncating prefix write to storage, verbatim.
    pub fn save_log_prefix(&mut self, prefix: LogPrefix) -> (h: SaveLog)
        ensures
            final(self).storage.ops@ == old(self).storage.ops@.push(
                StorageOp::SaveLogPrefix(prefix),
            ),
            h.op_index == old(self).storage.ops@.len(),
            final(self).storage.node_id == old(self).storage.node_id,
            final(self).storage.busy == old(self).storage.busy,
            final(self).io_state() == old(self).io_state(),
            final(self).node_id == old(self).node_id,
            final(self).service == old(self).service,
            final(self).timer == old(self).timer,
            old(self).wf() ==> final(self).wf(),
    {
        self.storage.save_log_prefix(prefix)
    }

    /// Forwards a trailing suffix write to storage, verbatim.
    pub fn save_log_suffix(&mut self, suffix: LogSuffix) -> (h: SaveLog)
        ensures
            final(self).storage.ops@ == old(self).storage.ops@.push(
                StorageOp::SaveLogSuffix(suffix),
            ),
            h.op_index == old(self).storage.ops@.len(),
            final(self).storage.node_id == old(self).storage.node_id,
            final(self).storage.busy == old(self).storage.busy,
            final(self).io_state() == old(self).io_state(),
            final(self).node_id == old(self).node_id,
            final(self).service == old(self).service,
            final(self).timer == old(self).timer,
            old(self).wf() ==> final(self).wf(),
    {
        self.storage.save_log_suffix(suffix)
    }

    /// Forwards a ranged log read to storage, verbatim.
    pub fn load_log(&mut self, start: LogIndex, end: Option<LogIndex>) -> (h: LoadLog)
        ensures
            final(self).storage.ops@ == old(self).storage.ops@.push(StorageOp::LoadLog(start, end)),
            h.op_index == old(self).storage.ops@.len(),
            final(self).storage.node_id == old(self).storage.node_id,
            final(self).storage.busy == old(self).storage.busy,
            final(self).io_state() == old(self).io_state(),
            final(self).node_id == old(self).node_id,
            final(self).service == old(self).service,
            final(self).timer == old(self).timer,
            old(self).wf() ==> final(self).wf(),
    {
        self.storage.load_log(start, end)
    }

    /// Creates a fresh, cancellable timeout event scoped to the engine's
    /// current role. The adapter neither tracks nor cancels it.
    pub fn create_timeout(&mut self, role: Role) -> (t: Timeout)
        ensures
            t.role == role,
            *final(self) == *old(self),
    {
        self.timer.create_timeout(role)
    }

    /// Whether storage reports backpressure, so the engine can throttle
    /// further persistence requests.
    pub fn is_busy(&mut self) -> (b: bool)
        ensures
            b == old(self).storage.busy,
            *final(self) == *old(self),
    {
        self.storage.is_busy()
    }

    /// Destruction: consumes the adapter and makes its one deregistration
    /// attempt — exactly one, whether or not `stop` was ever called.
    /// A deregistration failure is absorbed, never propagated: the
    /// registry is then simply left as it was. The registry handle is
    /// returned to its owner.
    pub fn dispose(self) -> (service: ServiceHandle)
        requires
            self.wf(),
        ensures
            service.log@ == self.service.log@.push(ServiceRequest::Remove(self.node_id)),
            self.service.nodes@.contains(self.node_id) ==> exists|i: int|
                0 <= i < self.service.nodes@.len() && self.service.nodes@[i] == self.node_id
                    && service.nodes@ == self.service.nodes@.remove(i),
            !self.service.nodes@.contains(self.node_id) ==> service.nodes@
                == self.service.nodes@,
            service.wf(),
    {
        let RaftIo { node_id, service, .. } = self;
        let mut service = service;
        // A deregistration failure must never reach the caller: destruction
        // cannot fail. The attempt itself is on the registry's log either way.
        let outcome = service.remove_node(node_id);
        match outcome {
            Ok(()) => {},
            Err(_) => {},
        }
        service
    }
}

/// The dispatch state after `k` successive receive polls.
pub open spec fn recv_steps(s: IoState, k: nat) -> IoState
    decreases k,
{
    if k == 0 {
        s
    } else {
        recv_step(recv_steps(s, (k - 1) as nat))
    }
}

/// What is left of a stopped adapter's backlog after `k` receive polls:
/// the `k` most recently captured messages are gone.
pub open spec fn backlog_after(b: Seq<Message>, k: nat) -> Seq<Message> {
    if k <= b.len() {
        b.take(b.len() - k)
    } else {
        Seq::empty()
    }
}

/// On a stopped adapter, `k` receive polls leave the mailer gone and
/// shorten the backlog by `k` from its end.
pub proof fn lemma_recv_steps_stopped(b: Seq<Message>, k: nat)
    ensures
        recv_steps(IoState { mailer: None, backlog: b }, k) == (IoState {
            mailer: None,
            backlog: backlog_after(b, k),
        }),
    decreases k,
{
    if k == 0 {
        assert(b.take(b.len() as int) =~= b);
        assert(recv_steps(IoState { mailer: None, backlog: b }, 0) =~= (IoState {
            mailer: None,
            backlog: backlog_after(b, 0),
        }));
    } else {
        lemma_recv_steps_stopped(b, (k - 1) as nat);
        let prev = IoState { mailer: None, backlog: backlog_after(b, (k - 1) as nat) };
        if k - 1 < b.len() {
            assert(prev.backlog.len() > 0);
            assert(prev.backlog.drop_last() =~= backlog_after(b, k));
            assert(recv_step(prev) =~= (IoState { mailer: None, backlog: backlog_after(b, k) }));
        } else {
            assert(prev.backlog.len() == 0);
            assert(recv_step(prev) == prev);
            assert(prev =~= (IoState { mailer: None, backlog: backlog_after(b, k) }));
        }
    }
}

/// Law (drain then empty): stop a running adapter whose healthy mailer
/// still buffers `n` messages, and the next `n` receive polls return
/// exactly those messages, most recently delivered first; every poll
/// after the `n`-th returns no message — forever.
pub proof fn lemma_drain_then_empty(s: IoState, m: MailerModel, k: nat)
    requires
        s.mailer == Some(m),
        m.healthy,
        s.backlog.len() == 0,
    ensures
        k < m.inbox.len() ==> recv_outcome(recv_steps(stop_step(s), k))
            == Ok::<Option<Message>, IoError>(Some(m.inbox[m.inbox.len() - 1 - k])),
        k >= m.inbox.len() ==> recv_outcome(recv_steps(stop_step(s), k))
            == Ok::<Option<Message>, IoError>(None),
{
    assert(stop_step(s) =~= (IoState { mailer: None, backlog: m.inbox }));
    lemma_recv_steps_stopped(m.inbox, k);
    let reached = IoState { mailer: None, backlog: backlog_after(m.inbox, k) };
    if k < m.inbox.len() {
        assert(reached.backlog.last() == m.inbox[m.inbox.len() - 1 - k]);
    } else {
        assert(reached.backlog.len() == 0);
    }
}

/// Law (no resurrection): once stopped, the mailer stays gone through any
/// number of receive polls, and a send then has no effect whatever the
/// message holds.
pub proof fn lemma_no_resurrection(s: IoState, k: nat, message: Message)
    ensures
        recv_steps(stop_step(s), k).mailer is None,
        send_step(recv_steps(stop_step(s), k), message) == recv_steps(stop_step(s), k),
{
    lemma_recv_steps_stopped(stop_step(s).backlog, k);
    assert(stop_step(s) == (IoState { mailer: None, backlog: stop_step(s).backlog }));
}

/// Law (idempotent stop): stopping twice leaves the same adapter state as
/// stopping once.
pub proof fn lemma_stop_idempotent(s: IoState)
    ensures
        stop_step(stop_step(s)) == stop_step(s),
{
    assert(stop_step(stop_step(s)).backlog =~= stop_step(s).backlog);
    assert(stop_step(stop_step(s)) =~= stop_step(s));
}

/// Law (malformed destination): a send whose destination does not parse
/// leaves the dispatch state — mailer and backlog alike — unchanged.
pub proof fn lemma_malformed_destination_ignored(s: IoState, message: Message)
    requires
        spec_parse_node_id(message.destination@) is None,
    ensures
        send_step(s, message) == s,
{
}

} // verus!
