//! A message delivered by the broker, and its acknowledgment protocol.
//!
//! A delivery is tagged with the channel it arrived on, and is settled at
//! most once, by exactly one of `ack`, `nack` or `reject`, each of which
//! consumes it. Settling a delivery through a channel other than its own is a
//! caller contract violation, not a runtime condition: the AMQP specification
//! leaves cross-channel acknowledgment unspecified, so the mismatch is ruled
//! out before any frame is submitted, statically, by the `requires` clauses
//! below.

use crate::connection::Channel;
use crate::engine::OutboundFrame;
use crate::errors::Error;
use crate::errors::ErrorKind;
use vstd::prelude::*;

verus! {

/// Structured metadata the broker attached to a message.
#[verifier::external_type_specification]
#[verifier::external_body]
pub struct ExAmqpProperties(amq_protocol::protocol::basic::AMQPProperties);

/// Relies on the property type's derived `Clone`; nothing is assumed of the
/// copy.
pub assume_specification[ <amq_protocol::protocol::basic::AMQPProperties as Clone>::clone ](
    p: &amq_protocol::protocol::basic::AMQPProperties,
) -> (r: amq_protocol::protocol::basic::AMQPProperties);

/// A message delivered to a consumer.
#[derive(Clone, Debug)]
pub struct Delivery {
    /// The id of the channel this delivery arrived on.
    pub channel_id: u16,
    /// The broker-assigned delivery tag, unique and increasing within a
    /// channel.
    pub delivery_tag: u64,
    /// If true, this message has previously been delivered to this or
    /// another consumer.
    pub redelivered: bool,
    /// The name of the exchange this message was originally published to.
    /// May be the empty string (the default exchange).
    pub exchange: String,
    /// The routing key specified when this message was published.
    pub routing_key: String,
    /// The content body of the message.
    pub content: Vec<u8>,
    /// Properties associated with the message.
    pub properties: amq_protocol::protocol::basic::AMQPProperties,
}

impl Delivery {
    /// The channel this delivery arrived on.
    pub open spec fn spec_channel_id(&self) -> u16 {
        self.channel_id
    }

    /// The broker-assigned tag of this delivery.
    pub open spec fn spec_delivery_tag(&self) -> u64 {
        self.delivery_tag
    }

    /// Build a delivery from the fields of a broker push (a consumer
    /// subscription); pairs the consumer tag it was addressed to with the
    /// delivery itself.
    pub fn new(
        channel_id: u16,
        consumer_tag: String,
        delivery_tag: u64,
        redelivered: bool,
        exchange: String,
        routing_key: String,
        content: Vec<u8>,
        properties: amq_protocol::protocol::basic::AMQPProperties,
    ) -> (r: (String, Delivery))
        ensures
            r.0 == consumer_tag,
            r.1.spec_channel_id() == channel_id,
            r.1.spec_delivery_tag() == delivery_tag,
            r.1.redelivered == redelivered,
            r.1.exchange == exchange,
            r.1.routing_key == routing_key,
            r.1.content == content,
            r.1.properties == properties,
    {
        (
            consumer_tag,
            Delivery {
                channel_id,
                delivery_tag,
                redelivered,
                exchange,
                routing_key,
                content,
                properties,
            },
        )
    }

    /// Build a delivery from the fields of a synchronous single fetch.
    pub fn new_get_ok(
        channel_id: u16,
        delivery_tag: u64,
        redelivered: bool,
        exchange: String,
        routing_key: String,
        content: Vec<u8>,
        properties: amq_protocol::protocol::basic::AMQPProperties,
    ) -> (d: Delivery)
        ensures
            d.spec_channel_id() == channel_id,
            d.spec_delivery_tag() == delivery_tag,
            d.redelivered == redelivered,
            d.exchange == exchange,
            d.routing_key == routing_key,
            d.content == content,
            d.properties == properties,
    {
        Delivery {
            channel_id,
            delivery_tag,
            redelivered,
            exchange,
            routing_key,
            content,
            properties,
        }
    }

    /// The server-assigned delivery tag for this message. Delivery tags are
    /// channel-specific.
    pub fn delivery_tag(&self) -> (tag: u64)
        ensures
            tag == self.spec_delivery_tag(),
    {
        self.delivery_tag
    }

    /// Acknowledge this delivery, which must have been received on the given
    /// channel. If `multiple` is true, also acknowledges every delivery
    /// received on this channel with a smaller tag that has not been settled
    /// yet.
    ///
    /// The frame submitted for transmission carries exactly this delivery's
    /// tag and the supplied `multiple` flag; success means the engine
    /// accepted it for sending, not that the broker processed it.
    pub fn ack(self, channel: &Channel, multiple: bool) -> (r: Result<(), Error>)
        requires
            self.spec_channel_id() == channel.spec_channel_id(),
        ensures
            r matches Err(e) ==> e@ == ErrorKind::EventLoopDropped,
    {
        channel.basic_ack(self, multiple)
    }

    /// Negatively acknowledge this delivery, which must have been received
    /// on the given channel. `multiple` as for [`Delivery::ack`]; if
    /// `requeue` is true, asks the broker to attempt redelivery.
    pub fn nack(self, channel: &Channel, multiple: bool, requeue: bool) -> (r: Result<(), Error>)
        requires
            self.spec_channel_id() == channel.spec_channel_id(),
        ensures
            r matches Err(e) ==> e@ == ErrorKind::EventLoopDropped,
    {
        channel.basic_nack(self, multiple, requeue)
    }

    /// Reject this delivery, which must have been received on the given
    /// channel. There is no multiple form; if `requeue` is true, asks the
    /// broker to attempt redelivery.
    pub fn reject(self, channel: &Channel, requeue: bool) -> (r: Result<(), Error>)
        requires
            self.spec_channel_id() == channel.spec_channel_id(),
        ensures
            r matches Err(e) ==> e@ == ErrorKind::EventLoopDropped,
    {
        channel.basic_reject(self, requeue)
    }
}

} // verus!
