//! The engine's control plane: the state machine that decides what happens to
//! every command and broker event reaching the connection's background
//! thread.
//!
//! The engine owns the socket for the connection's entire life; everything
//! else talks to it through queues of [`EngineEvent`]s. The decisions made
//! here — which channel id an open request gets, which listener receives
//! blocked notifications, which failure terminates the connection and is
//! reported to every later caller — are verified; the socket work that
//! produces broker events and consumes outbound frames stays with the thread
//! that runs [`Engine::step`] in a loop.

use crate::errors::Error;
use crate::errors::ErrorKind;
use crate::messaging::queue_recv;
use crate::messaging::queue_send;
use crossbeam_channel::Receiver;
use crossbeam_channel::Sender;
use vstd::prelude::*;

verus! {

/// A broker-initiated notification that publishers should pause (with the
/// broker's reason) or may resume.
#[derive(Clone, Debug, PartialEq)]
pub enum ConnectionBlockedNotification {
    /// The broker asked publishers to pause; carries the broker's reason.
    Blocked(String),
    /// The broker lifted a previously announced block.
    Unblocked,
}

/// An acknowledgment frame accepted for transmission to the broker.
///
/// Acknowledgment success means exactly this: the frame was handed to the
/// engine for sending. No broker confirmation travels back on this path.
#[derive(Clone, Debug, PartialEq)]
pub enum OutboundFrame {
    /// Settle the delivery with the given tag positively; with `multiple`
    /// set, also every not-yet-acknowledged delivery on the same channel
    /// with a smaller tag.
    Ack { channel_id: u16, delivery_tag: u64, multiple: bool },
    /// Settle the delivery negatively; `multiple` as for `Ack`; `requeue`
    /// asks the broker to attempt redelivery.
    Nack { channel_id: u16, delivery_tag: u64, multiple: bool, requeue: bool },
    /// Reject the single delivery with the given tag; `requeue` as for
    /// `Nack`.
    Reject { channel_id: u16, delivery_tag: u64, requeue: bool },
}

/// A command a caller sends to the engine's control plane.
#[derive(Debug)]
pub enum EngineRequest {
    /// Open a channel, either with the explicitly requested id or with the
    /// lowest free one; the outcome comes back on `reply`.
    OpenChannel { requested_id: Option<u16>, reply: Sender<Result<u16, Error>> },
    /// Shut the connection down; the engine stops and reports its terminal
    /// outcome on its termination queue.
    CloseConnection,
    /// Register `tx` as the one endpoint that receives blocked/unblocked
    /// notifications from now on, replacing any earlier registration.
    SetBlockedTx { tx: Sender<ConnectionBlockedNotification> },
    /// Transmit an acknowledgment frame.
    Frame(OutboundFrame),
}

/// Everything that can wake the engine: a caller's command, or an event the
/// socket side observed on the wire.
#[derive(Debug)]
pub enum EngineEvent {
    /// A command from a caller.
    Request(EngineRequest),
    /// The broker closed the connection with the given reply code and text.
    ServerClose(u16, String),
    /// The transport dropped without a close handshake.
    SocketClosed,
    /// The broker asked publishers to pause, with a reason.
    Blocked(String),
    /// The broker lifted the block.
    Unblocked,
}

/// How the engine's thread of execution ended, as reported on the
/// connection's termination queue.
#[derive(Debug)]
pub enum EngineTermination {
    /// The engine ran to completion and reports its own terminal outcome.
    Completed(Result<(), Error>),
    /// The engine thread terminated abnormally; carries a textual rendition
    /// of the fault payload.
    Panicked(String),
}

/// The engine's control-plane state.
///
/// `in_use` records which channel ids are taken; index 0 stands for the
/// control channel and is always taken. `terminal` records the first failure
/// that doomed the connection; once set it is shared, by reference, with
/// every later caller, and it becomes the engine's terminal outcome.
pub struct Engine {
    /// Highest channel id the handshake negotiated; ids run from 1 to here.
    pub channel_max: u16,
    /// One slot per channel id, `true` while the id is taken.
    pub in_use: Vec<bool>,
    /// The single registered blocked-notification listener, if any.
    pub blocked_tx: Option<Sender<ConnectionBlockedNotification>>,
    /// The failure that doomed the connection, if one has been recorded.
    pub terminal: Option<Error>,
    /// Where accepted acknowledgment frames go for transmission.
    pub frame_tx: Sender<OutboundFrame>,
}

/// The outcome the engine reports when asked to shut down: its recorded
/// failure if one doomed the connection, success otherwise.
pub open spec fn terminal_outcome(e: Engine) -> Result<(), Error> {
    match e.terminal {
        Some(err) => Err(err),
        None => Ok(()),
    }
}

/// Registration overwrites the single listener slot: it never merges.
pub open spec fn register_blocked(e: Engine, tx: Sender<ConnectionBlockedNotification>) -> Engine {
    Engine { blocked_tx: Some(tx), ..e }
}

/// The two engine states differ at most in the channel-id table, and there at
/// most by one previously free id having been taken.
pub open spec fn alloc_only_differs(pre: Engine, post: Engine) -> bool {
    &&& post.channel_max == pre.channel_max
    &&& post.blocked_tx == pre.blocked_tx
    &&& post.terminal == pre.terminal
    &&& post.frame_tx == pre.frame_tx
    &&& (post.in_use@ == pre.in_use@ || (exists|id: int|
        1 <= id < pre.in_use@.len() && !pre.in_use@[id] && post.in_use@ == pre.in_use@.update(
            id,
            true,
        )))
}

/// The two engine states agree on everything but the recorded terminal
/// failure.
pub open spec fn same_but_terminal(pre: Engine, post: Engine) -> bool {
    post == (Engine { terminal: post.terminal, ..pre })
}

impl Engine {
    /// The channel-id table covers exactly ids 0 through `channel_max`, and
    /// the control channel's id is never free.
    pub open spec fn wf(&self) -> bool {
        &&& self.in_use@.len() == self.channel_max as int + 1
        &&& self.in_use@[0] == true
    }

    /// A fresh engine: every channel id from 1 to `channel_max` free, no
    /// blocked-notification listener, no recorded failure.
    pub fn new(channel_max: u16, frame_tx: Sender<OutboundFrame>) -> (e: Engine)
        ensures
            e.wf(),
            e.channel_max == channel_max,
            forall|j: int| 1 <= j <= channel_max ==> !e.in_use@[j],
            e.blocked_tx is None,
            e.terminal is None,
            e.frame_tx == frame_tx,
    {
        let mut in_use: Vec<bool> = Vec::new();
        in_use.push(true);
        let mut i: usize = 0;
        while i < channel_max as usize
            invariant
                i <= channel_max as usize,
                in_use@.len() == i + 1,
                in_use@[0] == true,
                forall|j: int| 1 <= j <= i ==> !in_use@[j],
            decreases channel_max as int - i as int,
        {
            in_use.push(false);
            i = i + 1;
        }
        Engine { channel_max, in_use, blocked_tx: None, terminal: None, frame_tx }
    }

    /// Decide an open-channel request.
    ///
    /// An explicitly requested id succeeds exactly when it lies in the
    /// negotiated range and is currently free; otherwise the request fails
    /// with that id reported unavailable. A request without an explicit id
    /// gets the lowest free id; when every id is taken it fails with
    /// channel-id exhaustion. On success exactly the granted id becomes
    /// taken.
    pub fn allocate_channel_id(&mut self, requested: Option<u16>) -> (r: Result<u16, Error>)
        requires
            old(self).wf(),
        ensures
            final(self).wf(),
            final(self).channel_max == old(self).channel_max,
            final(self).blocked_tx == old(self).blocked_tx,
            final(self).terminal == old(self).terminal,
            final(self).frame_tx == old(self).frame_tx,
            match requested {
                Some(id) => {
                    if 1 <= id && id <= old(self).channel_max && !old(self).in_use@[id as int] {
                        &&& r == Ok::<u16, Error>(id)
                        &&& final(self).in_use@ == old(self).in_use@.update(id as int, true)
                    } else {
                        &&& (r matches Err(e) && e@ == ErrorKind::UnavailableChannelId(id))
                        &&& final(self).in_use@ == old(self).in_use@
                    }
                },
                None => {
                    if exists|j: int| 1 <= j <= old(self).channel_max && !old(self).in_use@[j] {
                        r matches Ok(id) && {
                            &&& 1 <= id <= old(self).channel_max
                            &&& !old(self).in_use@[id as int]
                            &&& (forall|j: int| 1 <= j < id ==> old(self).in_use@[j])
                            &&& final(self).in_use@ == old(self).in_use@.update(id as int, true)
                        }
                    } else {
                        &&& (r matches Err(e) && e@ == ErrorKind::ExhaustedChannelIds)
                        &&& final(self).in_use@ == old(self).in_use@
                    }
                },
            },
    {
        match requested {
            Some(id) => {
                if 1 <= id && id <= self.channel_max && !self.in_use[id as usize] {
                    self.in_use[id as usize] = true;
                    Ok(id)
                } else {
                    Err(Error::new(ErrorKind::UnavailableChannelId(id)))
                }
            },
            None => {
                let mut id: u32 = 1;
                while id <= self.channel_max as u32
                    invariant
                        requested is None,
                        *self == *old(self),
                        self.wf(),
                        1 <= id <= self.channel_max as u32 + 1,
                        forall|j: int| 1 <= j < id ==> self.in_use@[j],
                    decreases self.channel_max as int - id as int + 1,
                {
                    if !self.in_use[id as usize] {
                        self.in_use[id as usize] = true;
                        return Ok(id as u16);
                    }
                    id = id + 1;
                }
                Err(Error::new(ErrorKind::ExhaustedChannelIds))
            },
        }
    }

    /// Handle one event and report whether the engine is done: `Some`
    /// carries the terminal outcome and is produced exactly by a
    /// close-connection request.
    ///
    /// A request to open a channel on a doomed connection is answered with
    /// the recorded failure itself, shared by reference — never with a
    /// substitute. Registering a blocked-notification listener replaces the
    /// previous one. The first wire-level failure is recorded and kept; later
    /// ones never overwrite it.
    pub fn handle_event(&mut self, ev: EngineEvent) -> (done: Option<Result<(), Error>>)
        requires
            old(self).wf(),
        ensures
            final(self).wf(),
            (done is Some) <==> (ev matches EngineEvent::Request(EngineRequest::CloseConnection)),
            match ev {
                EngineEvent::Request(req) => match req {
                    EngineRequest::OpenChannel { requested_id, reply } => {
                        if old(self).terminal is Some {
                            *final(self) == *old(self)
                        } else {
                            alloc_only_differs(*old(self), *final(self))
                        }
                    },
                    EngineRequest::CloseConnection => {
                        &&& done == Some(terminal_outcome(*old(self)))
                        &&& *final(self) == *old(self)
                    },
                    EngineRequest::SetBlockedTx { tx } => *final(self) == register_blocked(
                        *old(self),
                        tx,
                    ),
                    EngineRequest::Frame(_) => *final(self) == *old(self),
                },
                EngineEvent::ServerClose(code, text) => {
                    &&& same_but_terminal(*old(self), *final(self))
                    &&& match old(self).terminal {
                        Some(first) => final(self).terminal == Some(first),
                        None => final(self).terminal matches Some(e) && e@
                            == ErrorKind::ServerClosedConnection(code, text),
                    }
                },
                EngineEvent::SocketClosed => {
                    &&& same_but_terminal(*old(self), *final(self))
                    &&& match old(self).terminal {
                        Some(first) => final(self).terminal == Some(first),
                        None => final(self).terminal matches Some(e) && e@
                            == ErrorKind::UnexpectedSocketClose,
                    }
                },
                EngineEvent::Blocked(_) => *final(self) == *old(self),
                EngineEvent::Unblocked => *final(self) == *old(self),
            },
    {
        match ev {
            EngineEvent::Request(req) => match req {
                EngineRequest::OpenChannel { requested_id, reply } => {
                    match &self.terminal {
                        Some(e) => {
                            let shared = e.clone();
                            let _ = queue_send(&reply, Err(shared));
                        },
                        None => {
                            let res = self.allocate_channel_id(requested_id);
                            let _ = queue_send(&reply, res);
                        },
                    }
                    None
                },
                EngineRequest::CloseConnection => {
                    let out = match &self.terminal {
                        Some(e) => Err(e.clone()),
                        None => Ok(()),
                    };
                    Some(out)
                },
                EngineRequest::SetBlockedTx { tx } => {
                    self.blocked_tx = Some(tx);
                    None
                },
                EngineRequest::Frame(f) => {
                    if self.terminal.is_none() {
                        let _ = queue_send(&self.frame_tx, f);
                    }
                    None
                },
            },
            EngineEvent::ServerClose(code, text) => {
                if self.terminal.is_none() {
                    self.terminal = Some(
                        Error::new(ErrorKind::ServerClosedConnection(code, text)),
                    );
                }
                None
            },
            EngineEvent::SocketClosed => {
                if self.terminal.is_none() {
                    self.terminal = Some(Error::new(ErrorKind::UnexpectedSocketClose));
                }
                None
            },
            EngineEvent::Blocked(reason) => {
                match &self.blocked_tx {
                    Some(tx) => {
                        let _ = queue_send(tx, ConnectionBlockedNotification::Blocked(reason));
                    },
                    None => {},
                }
                None
            },
            EngineEvent::Unblocked => {
                match &self.blocked_tx {
                    Some(tx) => {
                        let _ = queue_send(tx, ConnectionBlockedNotification::Unblocked);
                    },
                    None => {},
                }
                None
            },
        }
    }

    /// Receive and handle the next event. `Some` is the engine's terminal
    /// outcome: the thread that runs the engine calls this in a loop until it
    /// appears, then reports it on the termination queue. A disconnected
    /// event queue — every handle to the connection gone — also ends the
    /// engine, with its recorded outcome.
    pub fn step(&mut self, events: &Receiver<EngineEvent>) -> (done: Option<Result<(), Error>>)
        requires
            old(self).wf(),
        ensures
            final(self).wf(),
            done matches Some(out) ==> out == terminal_outcome(*final(self)),
    {
        match queue_recv(events) {
            Some(ev) => self.handle_event(ev),
            None => {
                let out = match &self.terminal {
                    Some(e) => Err(e.clone()),
                    None => Ok(()),
                };
                Some(out)
            },
        }
    }
}

/// Registering a blocked-notification listener twice leaves exactly the
/// second one registered: the slot is overwritten, never merged, so only the
/// endpoint paired with the latest registered sender observes subsequent
/// notifications.
pub proof fn lemma_blocked_listener_last_wins(
    e: Engine,
    first: Sender<ConnectionBlockedNotification>,
    second: Sender<ConnectionBlockedNotification>,
)
    ensures
        register_blocked(register_blocked(e, first), second) == register_blocked(e, second),
        register_blocked(e, second).blocked_tx == Some(second),
{
}

} // verus!
