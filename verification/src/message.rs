//! The message model, and the builder that packages a log event into it.

use vstd::prelude::*;
use crate::attribute::Attribute;
use crate::clock::{utc_now, Timestamp};
use crate::json::{json_entries, json_map_eq, Entries, JsonMap};
use crate::level::LevelTag;
use crate::serializer::{serialize, serialized};

verus! {

/// `Location` describes the location in the source from which a log message was issued.
#[derive(Debug)]
pub struct Location {
    /// The module from which the message was issued.
    pub module: String,
    /// The source file from which the message was issued.
    pub file: String,
    /// The line of the source file from which the message was issued.
    pub line: u32,
}

/// The mathematical model of a [`Location`].
pub struct LocationView {
    pub module: Seq<char>,
    pub file: Seq<char>,
    pub line: u32,
}

impl View for Location {
    type V = LocationView;

    open spec fn view(&self) -> LocationView {
        LocationView { module: self.module@, file: self.file@, line: self.line }
    }
}

impl Clone for Location {
    fn clone(&self) -> (copy: Location)
        ensures
            copy@ == self@,
    {
        Location { module: self.module.clone(), file: self.file.clone(), line: self.line }
    }
}

impl PartialEq for Location {
    fn eq(&self, other: &Location) -> (equal: bool) {
        self.module == other.module && self.file == other.file && self.line == other.line
    }
}

impl vstd::std_specs::cmp::PartialEqSpecImpl for Location {
    open spec fn obeys_eq_spec() -> bool {
        true
    }

    /// Two locations are equal when they name the same module, file and line.
    open spec fn eq_spec(&self, other: &Location) -> bool {
        self@ == other@
    }
}

/// A `Message` captures all the information about a single log message.
#[derive(Debug)]
pub struct Message {
    /// Where in the source the message was issued.
    pub location: Location,
    /// The logging level.
    pub level: LevelTag,
    /// The instant at which the message was built.
    ///
    /// An observer may read a message some time after it was issued, so this
    /// can differ from the instant at which the observer sees it.
    pub timestamp: Timestamp,
    /// The text of the log entry.
    pub message: String,
    /// The key-value pairs of this log message, those of the enclosing
    /// logging scopes included.
    pub kv: JsonMap,
}

/// The mathematical model of a [`Message`].
pub struct MessageView {
    pub location: LocationView,
    pub level: LevelTag,
    pub timestamp: Timestamp,
    pub message: Seq<char>,
    pub kv: Entries,
}

impl View for Message {
    type V = MessageView;

    open spec fn view(&self) -> MessageView {
        MessageView {
            location: self.location@,
            level: self.level,
            timestamp: self.timestamp,
            message: self.message@,
            kv: json_entries(self.kv),
        }
    }
}

impl Clone for Message {
    fn clone(&self) -> (copy: Message)
        ensures
            copy@ == self@,
    {
        Message {
            location: self.location.clone(),
            level: self.level,
            timestamp: self.timestamp,
            message: self.message.clone(),
            kv: self.kv.clone(),
        }
    }
}

impl PartialEq for Message {
    fn eq(&self, other: &Message) -> (equal: bool) {
        self.location == other.location && self.level == other.level && self.timestamp
            == other.timestamp && self.message == other.message && json_map_eq(
            &self.kv,
            &other.kv,
        )
    }
}

impl vstd::std_specs::cmp::PartialEqSpecImpl for Message {
    open spec fn obeys_eq_spec() -> bool {
        true
    }

    /// Two messages are equal when they agree in every field, the entries of
    /// their attribute maps included.
    open spec fn eq_spec(&self, other: &Message) -> bool {
        self@ == other@
    }
}

/// The message that a log event gives when it is built at `timestamp`.
pub open spec fn built(
    location: LocationView,
    level: LevelTag,
    timestamp: Timestamp,
    message: Seq<char>,
    event: Result<Vec<Attribute>, String>,
    context: Result<Vec<Attribute>, String>,
) -> MessageView {
    MessageView { location, level, timestamp, message, kv: serialized(event, context) }
}

/// Packages a log event into a message with the given timestamp.
///
/// `event` and `context` are the two layers of attributes: those of the event
/// itself and those inherited from the logging scopes around it. A layer
/// whose attributes could not be collected is given as the description of
/// what failed. Building never fails: such a description ends up in the
/// message in place of the attributes.
pub fn build_message(
    location: Location,
    level: LevelTag,
    timestamp: Timestamp,
    message: &str,
    event: &Result<Vec<Attribute>, String>,
    context: &Result<Vec<Attribute>, String>,
) -> (msg: Message)
    ensures
        msg@ == built(location@, level, timestamp, message@, *event, *context),
{
    let kv = serialize(event, context);
    Message { location, level, timestamp, message: message.to_owned(), kv }
}

/// Packages a log event into a message, stamped with the current time.
///
/// The message is the one that [`build_message`] gives for the instant at
/// which the clock was read.
pub fn create_dtrace_message(
    location: Location,
    level: LevelTag,
    message: &str,
    event: &Result<Vec<Attribute>, String>,
    context: &Result<Vec<Attribute>, String>,
) -> (msg: Message)
    ensures
        msg@ == built(location@, level, msg.timestamp, message@, *event, *context),
{
    build_message(location, level, utc_now(), message, event, context)
}

/// Building is idempotent: two messages built from the same inputs agree in
/// every field but the timestamp, and are equal where the two instants are.
pub proof fn lemma_build_is_idempotent(
    location: LocationView,
    level: LevelTag,
    message: Seq<char>,
    event: Result<Vec<Attribute>, String>,
    context: Result<Vec<Attribute>, String>,
    first: Timestamp,
    second: Timestamp,
)
    ensures
        built(location, level, first, message, event, context) == (MessageView {
            timestamp: first,
            ..built(location, level, second, message, event, context)
        }),
        first == second ==> built(location, level, first, message, event, context) == built(
            location,
            level,
            second,
            message,
            event,
            context,
        ),
{
}

} // verus!
