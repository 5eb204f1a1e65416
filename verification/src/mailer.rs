//! The per-node endpoint of the message transport.
//!
//! A mailer holds the messages the transport has already delivered to this
//! node (its inbox, oldest first), records the outbound messages it has
//! accepted for asynchronous delivery, and knows whether its link is still
//! up. Receiving is non-blocking; sending is fire-and-forget.

use vstd::prelude::*;

use crate::message::Message;
use crate::node_id::NodeId;

verus! {

/// A receive-side transport failure: the link is down.
#[derive(Clone, Copy, PartialEq, Eq, Structural, Debug)]
pub struct MailerError {}

/// An outbound message the mailer has accepted for asynchronous delivery.
#[derive(PartialEq, Eq, Debug)]
pub struct Outbound {
    /// The peer the message is to be delivered to.
    pub destination: NodeId,
    /// The envelope handed over.
    pub message: Message,
}

/// The mathematical state of a mailer.
#[verifier::ext_equal]
pub ghost struct MailerModel {
    /// Delivered but not yet received messages, oldest first.
    pub inbox: Seq<Message>,
    /// Messages accepted for delivery, in acceptance order.
    pub outbox: Seq<Outbound>,
    /// Whether the link is up.
    pub healthy: bool,
}

/// The per-node message-transport endpoint.
#[derive(PartialEq, Eq, Debug)]
pub struct Mailer {
    /// Messages the transport has delivered to this node, oldest first.
    pub inbox: Vec<Message>,
    /// Messages handed over for delivery, in the order they were accepted.
    pub outbox: Vec<Outbound>,
    /// Whether the link is still up; a downed link fails every receive.
    pub healthy: bool,
}

impl View for Mailer {
    type V = MailerModel;

    open spec fn view(&self) -> MailerModel {
        MailerModel { inbox: self.inbox@, outbox: self.outbox@, healthy: self.healthy }
    }
}

/// What one non-blocking receive attempt returns: an error on a downed
/// link, nothing on an empty inbox, and the oldest message otherwise.
pub open spec fn spec_recv_outcome(m: MailerModel) -> Result<Option<Message>, MailerError> {
    if !m.healthy {
        Err(MailerError {})
    } else if m.inbox.len() == 0 {
        Ok(None)
    } else {
        Ok(Some(m.inbox.first()))
    }
}

/// The mailer state after one receive attempt: the oldest message leaves
/// the inbox when one was returned; nothing else changes.
pub open spec fn spec_recv_step(m: MailerModel) -> MailerModel {
    if m.healthy && m.inbox.len() > 0 {
        MailerModel { inbox: m.inbox.drop_first(), outbox: m.outbox, healthy: m.healthy }
    } else {
        m
    }
}

/// The mailer state after accepting one outbound message.
pub open spec fn spec_send_step(m: MailerModel, destination: NodeId, message: Message) -> MailerModel {
    MailerModel {
        inbox: m.inbox,
        outbox: m.outbox.push(Outbound { destination, message }),
        healthy: m.healthy,
    }
}

impl Mailer {
    /// A fresh endpoint: nothing delivered, nothing sent, link up.
    pub fn new() -> (m: Mailer)
        ensures
            m@ == (MailerModel { inbox: Seq::empty(), outbox: Seq::empty(), healthy: true }),
    {
        Mailer { inbox: Vec::new(), outbox: Vec::new(), healthy: true }
    }

    /// Transport side: a message arrives for this node.
    pub fn deliver(&mut self, message: Message)
        ensures
            final(self)@ == (MailerModel {
                inbox: old(self)@.inbox.push(message),
                outbox: old(self)@.outbox,
                healthy: old(self)@.healthy,
            }),
    {
        self.inbox.push(message);
    }

    /// Transport side: the link goes down; every later receive fails.
    pub fn disconnect(&mut self)
        ensures
            final(self)@ == (MailerModel {
                inbox: old(self)@.inbox,
                outbox: old(self)@.outbox,
                healthy: false,
            }),
    {
        self.healthy = false;
    }

    /// One non-blocking receive attempt.
    pub fn try_recv_message(&mut self) -> (r: Result<Option<Message>, MailerError>)
        ensures
            r == spec_recv_outcome(old(self)@),
            final(self)@ == spec_recv_step(old(self)@),
    {
        if !self.healthy {
            return Err(MailerError {});
        }
        if self.inbox.len() == 0 {
            return Ok(None);
        }
        let message = self.inbox.remove(0);
        proof {
            assert(old(self)@.inbox.remove(0) =~= old(self)@.inbox.drop_first());
        }
        Ok(Some(message))
    }

    /// Hands one message over for asynchronous, fire-and-forget delivery
    /// toward `destination`. No confirmation is ever reported.
    pub fn send_message(&mut self, destination: &NodeId, message: Message)
        ensures
            final(self)@ == spec_send_step(old(self)@, *destination, message),
    {
        self.outbox.push(Outbound { destination: *destination, message });
    }
}

} // verus!
