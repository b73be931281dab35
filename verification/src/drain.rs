//! The sink: the outcome of registering its probes, and the per-level check
//! that decides for each event whether a message is built at all.

use vstd::prelude::*;
use crate::attribute::Attribute;
use crate::level::{Channels, LevelTag};
use crate::message::{built, create_dtrace_message, Location, Message};

verus! {

/// `ProbeRegistration` stores the result of registering probes with the tracing facility.
///
/// Though unlikely, it's possible that probe registration fails. One may then
/// want to abort the application, or one might decide that a running but
/// degraded application is better than nothing. The caller decides.
#[derive(Debug)]
pub enum ProbeRegistration {
    Success,
    Failed(String),
}

impl ProbeRegistration {
    /// Helper to check if the variant is `Success`.
    pub fn is_success(&self) -> (yes: bool)
        ensures
            yes == (self is Success),
    {
        match self {
            ProbeRegistration::Success => true,
            ProbeRegistration::Failed(_) => false,
        }
    }
}

/// The outcome that stands for what came of registering the probes.
pub open spec fn outcome_of(registration: Result<(), String>) -> ProbeRegistration {
    match registration {
        Ok(_) => ProbeRegistration::Success,
        Err(reason) => ProbeRegistration::Failed(reason),
    }
}

/// A sink that forwards log messages to the tracing facility.
#[derive(Debug)]
pub struct Dtrace {
    registered: bool,
}

impl Dtrace {
    /// Whether the probes of this sink were registered with the facility.
    pub closed spec fn registered(&self) -> bool {
        self.registered
    }

    /// Whether this sink builds a message for an event of `level` when the
    /// facility reports `channels`: its probes must be registered, and the
    /// channel of that one level enabled. No other channel counts.
    pub open spec fn fires(&self, channels: Channels, level: LevelTag) -> bool {
        self.registered() && channels.enabled(level)
    }

    /// Creates a sink that emits messages only to the tracing facility.
    ///
    /// `registration` is what came of registering the probes, which the
    /// caller attempts once. A failure does not prevent the sink from being
    /// made: it is reported in the second element, so that the caller can
    /// decide how to handle it, and the sink then never fires.
    pub fn new(registration: Result<(), String>) -> (made: (Dtrace, ProbeRegistration))
        ensures
            made.0.registered() == (registration is Ok),
            made.1 == outcome_of(registration),
    {
        match registration {
            Ok(_) => (Dtrace { registered: true }, ProbeRegistration::Success),
            Err(reason) => (Dtrace { registered: false }, ProbeRegistration::Failed(reason)),
        }
    }

    /// Whether the probes of this sink were registered with the facility.
    pub fn is_registered(&self) -> (yes: bool)
        ensures
            yes == self.registered(),
    {
        self.registered
    }

    /// Whether this sink builds a message for an event of `level`, given
    /// what the facility reports of its channels. This test is all that an
    /// event on a disabled channel costs.
    pub fn is_enabled(&self, channels: &Channels, level: LevelTag) -> (yes: bool)
        ensures
            yes == self.fires(*channels, level),
    {
        self.registered && channels.is_enabled(level)
    }

    /// Handles one log event: builds its message if the channel of its level
    /// is enabled, and does nothing if it is not.
    ///
    /// The message that comes back is the payload for the probe of `level`.
    /// On a disabled channel no attribute is looked at and no message is
    /// made.
    pub fn log(
        &self,
        channels: &Channels,
        location: Location,
        level: LevelTag,
        message: &str,
        event: &Result<Vec<Attribute>, String>,
        context: &Result<Vec<Attribute>, String>,
    ) -> (payload: Option<Message>)
        ensures
            !channels.enabled(level) ==> payload is None,
            payload is Some <==> self.fires(*channels, level),
            payload matches Some(msg) ==> msg@ == built(
                location@,
                level,
                msg.timestamp,
                message@,
                *event,
                *context,
            ),
    {
        if self.is_enabled(channels, level) {
            Some(create_dtrace_message(location, level, message, event, context))
        } else {
            None
        }
    }
}

/// A sink of the tracing facility beside another drain, which receives
/// every event as well.
#[derive(Debug)]
pub struct Duplicate<D> {
    /// The drain that was there before.
    pub drain: D,
    /// The sink of the tracing facility.
    pub dtrace: Dtrace,
}

/// Combine the [`Dtrace`] sink with another drain.
///
/// Registration can fail, see [`ProbeRegistration`] and [`Dtrace::new`].
pub fn with_drain<D>(drain: D, registration: Result<(), String>) -> (made: (
    Duplicate<D>,
    ProbeRegistration,
))
    ensures
        made.0.drain == drain,
        made.0.dtrace.registered() == (registration is Ok),
        made.1 == outcome_of(registration),
{
    let (dtrace, outcome) = Dtrace::new(registration);
    (Duplicate { drain, dtrace }, outcome)
}

} // verus!
