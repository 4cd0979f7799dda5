//! The tracer: one connection handle, one topic, one publication per call.

use std::sync::Arc;
use vstd::prelude::*;
use vstd::utf8::decode_utf8;
use crate::level::LogLevel;
use crate::record::{lemma_wire_round_trip, wire_bytes, LogMessage};

verus! {

/// What one call asks the transport to carry: `payload`, on `subject`.
#[derive(Debug)]
pub struct Publication {
    pub subject: String,
    pub payload: Vec<u8>,
}

/// A publish that the transport refused, with the transport's own error.
#[derive(Debug)]
pub struct TransportError<E> {
    pub source: E,
}

impl Publication {
    /// The outcome of the call, given the transport's reply to this
    /// publication. A failure is handed on with the error it came with. The
    /// publication is used up either way: nothing is sent a second time.
    pub fn conclude<E>(self, reply: Result<(), E>) -> (outcome: Result<(), TransportError<E>>)
        ensures
            outcome == match reply {
                Ok(()) => Ok::<(), TransportError<E>>(()),
                Err(e) => Err(TransportError { source: e }),
            },
    {
        match reply {
            Ok(()) => Ok(()),
            Err(e) => Err(TransportError { source: e }),
        }
    }
}

/// A publisher of log records onto one topic of a shared connection.
///
/// The tracer never closes or reconfigures the connection; it only names it
/// as the place where its publications are to be sent.
pub struct Tracer<C> {
    nats_client: Arc<C>,
    topic: String,
}

impl<C> Tracer<C> {
    /// The topic fixed when the tracer was made.
    pub closed spec fn spec_topic(&self) -> Seq<char> {
        self.topic@
    }

    /// The connection handle given when the tracer was made.
    pub closed spec fn spec_connection(&self) -> Arc<C> {
        self.nats_client
    }

    /// A tracer that publishes on `topic` over `nats_client`. Any topic is
    /// taken as it is, the empty one too.
    pub fn new(nats_client: Arc<C>, topic: String) -> (tracer: Self)
        ensures
            tracer.spec_topic() == topic@,
            tracer.spec_connection() == nats_client,
    {
        Tracer { nats_client, topic }
    }

    pub fn topic(&self) -> (topic: &str)
        ensures
            topic@ == self.spec_topic(),
    {
        self.topic.as_str()
    }

    pub fn connection(&self) -> (connection: &Arc<C>)
        ensures
            *connection == self.spec_connection(),
    {
        &self.nats_client
    }

    /// The publication for one log call: the UTF-8 bytes of `message`, on the
    /// tracer's topic. Neither `level` nor `module` reaches the wire, and the
    /// payload decodes back to `message` exactly.
    pub fn log(&self, level: LogLevel, message: &str, module: &str) -> (publication: Publication)
        ensures
            publication.subject@ == self.spec_topic(),
            publication.payload@ == wire_bytes(message@),
            decode_utf8(publication.payload@) == message@,
    {
        let record = LogMessage::new(message);
        proof {
            lemma_wire_round_trip(message@);
        }
        Publication { subject: self.topic.clone(), payload: record.payload() }
    }
}

} // verus!
