//! The connection handle: lifecycle, shutdown protocol, and the per-channel
//! proxies through which callers reach the engine.
//!
//! A [`Connection`] owns the engine's termination queue — the
//! thread-of-execution token — until shutdown takes it, exactly once. The
//! shutdown protocol is idempotent: a second run finds the token gone,
//! does nothing, and succeeds, so an explicit `close` followed by a
//! best-effort cleanup at scope exit never joins twice and never reports an
//! error from the second invocation.

use crate::delivery::Delivery;
use crate::engine::EngineEvent;
use crate::engine::EngineRequest;
use crate::engine::EngineTermination;
use crate::engine::ConnectionBlockedNotification;
use crate::engine::OutboundFrame;
use crate::errors::Error;
use crate::errors::ErrorKind;
use crate::messaging::queue_recv;
use crate::messaging::queue_send;
use crate::messaging::queue_unbounded;
use crate::messaging::sender_clone;
use crossbeam_channel::Receiver;
use crossbeam_channel::Sender;
use vstd::prelude::*;

verus! {

/// The server-property table captured at handshake completion.
#[verifier::external_type_specification]
#[verifier::external_body]
pub struct ExFieldTable(amq_protocol::types::FieldTable);

/// A proxy to one logical channel: it carries the channel's id and a sending
/// endpoint of the engine's event queue.
pub struct Channel {
    channel_id: u16,
    tx: Sender<EngineEvent>,
}

impl Channel {
    /// The id of the channel this proxy stands for.
    pub closed spec fn spec_channel_id(&self) -> u16 {
        self.channel_id
    }

    /// The sending endpoint this proxy submits frames through.
    pub closed spec fn spec_tx(&self) -> Sender<EngineEvent> {
        self.tx
    }

    /// A proxy for the channel with the given id, submitting frames on the
    /// given endpoint.
    pub fn new(channel_id: u16, tx: Sender<EngineEvent>) -> (ch: Channel)
        ensures
            ch.spec_channel_id() == channel_id,
            ch.spec_tx() == tx,
    {
        Channel { channel_id, tx }
    }

    /// The id of this channel.
    pub fn channel_id(&self) -> (id: u16)
        ensures
            id == self.spec_channel_id(),
    {
        self.channel_id
    }

    /// The acknowledgment frame that positively settling `delivery` on this
    /// channel submits: it carries exactly this channel's id, the delivery's
    /// own tag, and the supplied `multiple` flag.
    pub fn ack_frame(&self, delivery: &Delivery, multiple: bool) -> (f: OutboundFrame)
        ensures
            f == (OutboundFrame::Ack {
                channel_id: self.spec_channel_id(),
                delivery_tag: delivery.spec_delivery_tag(),
                multiple,
            }),
    {
        OutboundFrame::Ack {
            channel_id: self.channel_id,
            delivery_tag: delivery.delivery_tag(),
            multiple,
        }
    }

    /// The frame that negatively settling `delivery` on this channel
    /// submits: exactly this channel's id, the delivery's own tag, and the
    /// supplied `multiple` and `requeue` flags.
    pub fn nack_frame(&self, delivery: &Delivery, multiple: bool, requeue: bool) -> (f:
        OutboundFrame)
        ensures
            f == (OutboundFrame::Nack {
                channel_id: self.spec_channel_id(),
                delivery_tag: delivery.spec_delivery_tag(),
                multiple,
                requeue,
            }),
    {
        OutboundFrame::Nack {
            channel_id: self.channel_id,
            delivery_tag: delivery.delivery_tag(),
            multiple,
            requeue,
        }
    }

    /// The frame that rejecting `delivery` on this channel submits: exactly
    /// this channel's id, the delivery's own tag, and the supplied `requeue`
    /// flag.
    pub fn reject_frame(&self, delivery: &Delivery, requeue: bool) -> (f: OutboundFrame)
        ensures
            f == (OutboundFrame::Reject {
                channel_id: self.spec_channel_id(),
                delivery_tag: delivery.spec_delivery_tag(),
                requeue,
            }),
    {
        OutboundFrame::Reject {
            channel_id: self.channel_id,
            delivery_tag: delivery.delivery_tag(),
            requeue,
        }
    }

    /// Hand a frame to the engine for transmission. Fails exactly when the
    /// engine's event queue is gone, and then with the event-loop-dropped
    /// error.
    pub fn send_frame(&self, frame: OutboundFrame) -> (r: Result<(), Error>)
        ensures
            r matches Err(e) ==> e@ == ErrorKind::EventLoopDropped,
    {
        match queue_send(&self.tx, EngineEvent::Request(EngineRequest::Frame(frame))) {
            Ok(()) => Ok(()),
            Err(_) => Err(Error::new(ErrorKind::EventLoopDropped)),
        }
    }

    /// Submit the acknowledgment frame for `delivery` with the supplied
    /// `multiple` flag.
    pub fn basic_ack(&self, delivery: Delivery, multiple: bool) -> (r: Result<(), Error>)
        ensures
            r matches Err(e) ==> e@ == ErrorKind::EventLoopDropped,
    {
        let f = self.ack_frame(&delivery, multiple);
        self.send_frame(f)
    }

    /// Submit the negative-acknowledgment frame for `delivery` with the
    /// supplied `multiple` and `requeue` flags.
    pub fn basic_nack(&self, delivery: Delivery, multiple: bool, requeue: bool) -> (r: Result<
        (),
        Error,
    >)
        ensures
            r matches Err(e) ==> e@ == ErrorKind::EventLoopDropped,
    {
        let f = self.nack_frame(&delivery, multiple, requeue);
        self.send_frame(f)
    }

    /// Submit the reject frame for `delivery` with the supplied `requeue`
    /// flag.
    pub fn basic_reject(&self, delivery: Delivery, requeue: bool) -> (r: Result<(), Error>)
        ensures
            r matches Err(e) ==> e@ == ErrorKind::EventLoopDropped,
    {
        let f = self.reject_frame(&delivery, requeue);
        self.send_frame(f)
    }
}

/// A proxy to the engine's control plane: open a channel, request connection
/// close, register a blocked-notification sink.
pub struct Channel0Handle {
    tx: Sender<EngineEvent>,
}

impl Channel0Handle {
    /// The sending endpoint of the engine's event queue.
    pub closed spec fn spec_tx(&self) -> Sender<EngineEvent> {
        self.tx
    }

    /// A control-plane proxy submitting on the given endpoint.
    pub fn new(tx: Sender<EngineEvent>) -> (h: Channel0Handle)
        ensures
            h.spec_tx() == tx,
    {
        Channel0Handle { tx }
    }

    /// Send an open-channel command and block for the engine's decision.
    /// The outcome is whatever the engine decided, read through
    /// [`interpret_open_reply`]; when the engine is gone the call fails with
    /// the event-loop-dropped error.
    pub fn open_channel(&self, requested_id: Option<u16>) -> (r: Result<u16, Error>) {
        let (reply_tx, reply_rx) = queue_unbounded();
        let sent = queue_send(
            &self.tx,
            EngineEvent::Request(EngineRequest::OpenChannel { requested_id, reply: reply_tx }),
        );
        match sent {
            Ok(()) => interpret_open_reply(queue_recv(&reply_rx)),
            Err(_) => Err(Error::new(ErrorKind::EventLoopDropped)),
        }
    }

    /// Ask the engine to shut the connection down. Fails exactly when the
    /// engine's event queue is gone, and then with the event-loop-dropped
    /// error.
    pub fn close_connection(&self) -> (r: Result<(), Error>)
        ensures
            r matches Err(e) ==> e@ == ErrorKind::EventLoopDropped,
    {
        match queue_send(&self.tx, EngineEvent::Request(EngineRequest::CloseConnection)) {
            Ok(()) => Ok(()),
            Err(_) => Err(Error::new(ErrorKind::EventLoopDropped)),
        }
    }

    /// Register `tx` as the engine's one blocked-notification sink,
    /// replacing any earlier registration. Fails exactly when the engine's
    /// event queue is gone, and then with the event-loop-dropped error.
    pub fn set_blocked_tx(&self, tx: Sender<ConnectionBlockedNotification>) -> (r: Result<
        (),
        Error,
    >)
        ensures
            r matches Err(e) ==> e@ == ErrorKind::EventLoopDropped,
    {
        match queue_send(&self.tx, EngineEvent::Request(EngineRequest::SetBlockedTx { tx })) {
            Ok(()) => Ok(()),
            Err(_) => Err(Error::new(ErrorKind::EventLoopDropped)),
        }
    }
}

/// What an open-channel reply means: the engine's decision passes through
/// untouched — never substituted — and a missing reply, the engine gone
/// before answering, means the event loop dropped the sending side.
pub fn interpret_open_reply(reply: Option<Result<u16, Error>>) -> (r: Result<u16, Error>)
    ensures
        reply matches Some(res) ==> r == res,
        reply is None ==> (r matches Err(e) && e@ == ErrorKind::EventLoopDropped),
{
    match reply {
        Some(res) => res,
        None => Err(Error::new(ErrorKind::EventLoopDropped)),
    }
}

/// Turn what the termination queue yielded into the outcome `close` reports.
///
/// A normal completion passes the engine's own terminal result through
/// untouched. An abnormal termination — reported as such, or betrayed by the
/// queue closing with no report at all — becomes the thread-panic error, and
/// when a rendition of the fault payload was reported, the error carries
/// exactly that text.
pub fn finish_join(t: Option<EngineTermination>) -> (r: Result<(), Error>)
    ensures
        t matches Some(EngineTermination::Completed(out)) ==> r == out,
        t matches Some(EngineTermination::Panicked(payload)) ==> (r matches Err(e) && e@
            == ErrorKind::IoThreadPanic(payload)),
        t is None ==> (r matches Err(e) && e@ matches ErrorKind::IoThreadPanic(_)),
{
    match t {
        Some(EngineTermination::Completed(out)) => out,
        Some(EngineTermination::Panicked(payload)) => Err(
            Error::new(ErrorKind::IoThreadPanic(payload)),
        ),
        None => Err(
            Error::new(
                ErrorKind::IoThreadPanic("engine ended without reporting an outcome".to_string()),
            ),
        ),
    }
}

/// A handle to an open connection.
///
/// It holds the engine's thread-of-execution token (the termination queue),
/// present until shutdown takes it exactly once; the control-plane proxy;
/// and the immutable server-property snapshot captured at handshake
/// completion.
pub struct Connection {
    join_token: Option<Receiver<EngineTermination>>,
    channel0: Channel0Handle,
    server_properties: amq_protocol::types::FieldTable,
}

impl Connection {
    /// The thread-of-execution token, while shutdown has not taken it.
    pub closed spec fn spec_join_token(&self) -> Option<Receiver<EngineTermination>> {
        self.join_token
    }

    /// The control-plane proxy.
    pub closed spec fn spec_channel0(&self) -> Channel0Handle {
        self.channel0
    }

    /// The server-property snapshot.
    pub closed spec fn spec_server_properties(&self) -> amq_protocol::types::FieldTable {
        self.server_properties
    }

    /// Shutdown has already run: the token is gone.
    pub open spec fn is_shut_down(&self) -> bool {
        self.spec_join_token() is None
    }

    /// This connection after shutdown: the token gone, everything else as it
    /// was.
    pub closed spec fn after_shutdown(self) -> Connection {
        Connection { join_token: None, ..self }
    }

    /// Assemble a connection handle from the pieces a completed handshake
    /// yields: the engine's termination queue, the control-plane proxy, and
    /// the negotiated server properties.
    pub fn new(
        join_token: Receiver<EngineTermination>,
        channel0: Channel0Handle,
        server_properties: amq_protocol::types::FieldTable,
    ) -> (c: Connection)
        ensures
            c.spec_join_token() == Some(join_token),
            c.spec_channel0() == channel0,
            c.spec_server_properties() == server_properties,
            !c.is_shut_down(),
    {
        Connection { join_token: Some(join_token), channel0, server_properties }
    }

    /// The properties the server reported during the handshake. Never
    /// blocks, never fails, constant for the connection's life.
    pub fn server_properties(&self) -> (p: &amq_protocol::types::FieldTable)
        ensures
            *p == self.spec_server_properties(),
    {
        &self.server_properties
    }

    /// The exactly-once shutdown protocol.
    ///
    /// Takes the thread-of-execution token out of the handle. If one was
    /// present, sends a close-connection command through the control plane,
    /// then joins: blocks until the engine reports how it ended, and returns
    /// that outcome — mapped through [`finish_join`], so an abnormal engine
    /// termination surfaces as the thread-panic error. If the token was
    /// already gone — which only an earlier run of this protocol can have
    /// caused — succeeds with no further action.
    pub fn close_impl(&mut self) -> (r: Result<(), Error>)
        ensures
            *final(self) == old(self).after_shutdown(),
            old(self).is_shut_down() ==> r is Ok,
    {
        let token = self.join_token.take();
        match token {
            Some(rx) => {
                let _ = self.channel0.close_connection();
                let t = queue_recv(&rx);
                finish_join(t)
            },
            None => Ok(()),
        }
    }

    /// Close the connection: block until the engine terminates and report
    /// the engine's own terminal outcome — success, or whatever failure
    /// stopped it.
    pub fn close(self) -> (r: Result<(), Error>)
        ensures
            self.is_shut_down() ==> r is Ok,
    {
        let mut this = self;
        this.close_impl()
    }

    /// Create a fresh notification queue, register its sending endpoint as
    /// the engine's one blocked-notification sink — replacing any previously
    /// registered listener — and return the receiving endpoint. Fails when
    /// the control plane is unreachable.
    pub fn listen_for_connection_blocked(&mut self) -> (r: Result<
        Receiver<ConnectionBlockedNotification>,
        Error,
    >)
        ensures
            *final(self) == *old(self),
            r matches Err(e) ==> e@ == ErrorKind::EventLoopDropped,
    {
        let (tx, rx) = queue_unbounded();
        match self.channel0.set_blocked_tx(tx) {
            Ok(()) => Ok(rx),
            Err(e) => Err(e),
        }
    }

    /// Send an open-channel command to the control plane, block for the
    /// engine's decision, and wrap a granted id into a channel proxy usable
    /// independently of this handle, including from another thread.
    pub fn open_channel(&mut self, channel_id: Option<u16>) -> (r: Result<Channel, Error>)
        ensures
            *final(self) == *old(self),
    {
        match self.channel0.open_channel(channel_id) {
            Ok(id) => Ok(Channel::new(id, sender_clone(&self.channel0.tx))),
            Err(e) => Err(e),
        }
    }
}

/// Shutdown is idempotent: running it on an already shut-down handle changes
/// nothing, so repeated shutdowns — an explicit close, then the best-effort
/// cleanup at scope exit — are safe no-ops after the first.
pub proof fn lemma_shutdown_idempotent(c: Connection)
    ensures
        c.after_shutdown().after_shutdown() == c.after_shutdown(),
        c.after_shutdown().is_shut_down(),
        c.is_shut_down() ==> c.after_shutdown() == c,
{
}

} // verus!
