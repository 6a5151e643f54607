//! The shared failure taxonomy.
//!
//! A single engine-side failure can matter to several threads at once: the
//! thread that called `open`, threads blocked on in-flight requests, and a
//! later caller of `close`. An [`Error`] therefore shares one immutable
//! [`ErrorKind`] by reference count, so the identical failure record can be
//! handed to every waiter without reconstruction or loss.

use std::sync::Arc;
use vstd::prelude::*;

verus! {

/// Specific error cases surfaced by this crate.
#[derive(Clone, Debug, PartialEq)]
pub enum ErrorKind {
    /// The underlying socket was closed unexpectedly.
    UnexpectedSocketClose,
    /// Data arrived that could not be parsed as an AMQP frame.
    MalformedFrame,
    /// An I/O error occurred on the underlying stream.
    Io,
    /// The TLS handshake failed.
    TlsHandshake,
    /// The server does not support the requested auth mechanism; carries the
    /// mechanisms the server offered.
    UnsupportedAuthMechanism(String),
    /// The server does not support the requested locale; carries the locales
    /// the server offered.
    UnsupportedLocale(String),
    /// The requested frame max is smaller than the minimum required by AMQP;
    /// carries that minimum.
    FrameMaxTooSmall(u32),
    /// A timeout occurred while waiting for poll events. Fires only when the
    /// connection was tuned with a poll timeout and that period passed with no
    /// events waking the engine.
    PollTimeout,
    /// The server requested a Secure/Secure-Ok exchange, which is not
    /// supported.
    SaslSecureNotSupported,
    /// The supplied authentication credentials were not accepted.
    InvalidCredentials,
    /// The server missed too many successive heartbeats.
    MissedServerHeartbeats,
    /// The server closed the connection, with the given reply code and text.
    ServerClosedConnection(u16, String),
    /// The client closed the connection.
    ClientClosedConnection,
    /// The server closed the given channel, with the given reply code and
    /// text.
    ServerClosedChannel(u16, u16, String),
    /// The client closed the channel.
    ClientClosedChannel,
    /// The engine tried to send a message to a caller that no longer exists:
    /// either a bug or a connection already tearing down.
    EventLoopClientDropped,
    /// The engine dropped the sending side of a queue, typically because it
    /// exited due to another error.
    EventLoopDropped,
    /// A valid AMQP frame arrived that was not expected at this point.
    FrameUnexpected,
    /// Spawning the engine thread failed.
    ForkFailed,
    /// No more channel ids are available.
    ExhaustedChannelIds,
    /// An explicit channel id was requested but is unavailable, e.g. because
    /// another open channel already uses it.
    UnavailableChannelId(u16),
    /// The client sent an AMQP exception to the server and closed the
    /// connection.
    ClientException,
    /// The server sent frames for a channel id this client knows nothing
    /// about.
    ReceivedFrameWithBogusChannelId(u16),
    /// The engine thread terminated abnormally; carries a textual rendition
    /// of the fault payload.
    IoThreadPanic(String),
    /// The server sent a consumer tag equal to one already in use on the same
    /// channel.
    DuplicateConsumerTag(u16, String),
    /// The server sent a delivery with a consumer tag unknown on the given
    /// channel.
    UnknownConsumerTag(u16, String),
}

/// An error that can occur from this crate. The kind it wraps is shared,
/// immutable and reference-counted: cloning never reconstructs the failure
/// record, so every waiter observes the same one.
#[derive(Debug)]
pub struct Error {
    ctx: Arc<ErrorKind>,
}

/// Relies on std's `Arc::clone`: the returned handle shares the same
/// immutable pointee as the argument.
#[verifier::external_body]
fn arc_clone<T>(a: &Arc<T>) -> (r: Arc<T>)
    ensures
        r == *a,
{
    Arc::clone(a)
}

impl View for Error {
    type V = ErrorKind;

    closed spec fn view(&self) -> ErrorKind {
        *self.ctx
    }
}

impl Error {
    /// Wrap a kind into a shareable error record.
    pub fn new(kind: ErrorKind) -> (e: Error)
        ensures
            e@ == kind,
    {
        Error { ctx: Arc::new(kind) }
    }

    /// The kind of this error.
    pub fn kind(&self) -> (k: &ErrorKind)
        ensures
            *k == self@,
    {
        &*self.ctx
    }
}

impl Clone for Error {
    /// The clone observes the very same kind.
    fn clone(&self) -> (e: Self)
        ensures
            e == *self,
    {
        Error { ctx: arc_clone(&self.ctx) }
    }
}

} // verus!
