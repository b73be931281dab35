//! Forward structured, leveled log events to dynamically enabled tracing probes.
//!
//! Logging is invaluable in production applications, but most of the time only
//! informational or error messages are wanted. When an application misbehaves
//! it can be extremely useful to see more verbose messages, without restarting
//! the process at another log level. This library is the core of a sink that
//! makes every message, whatever its level, available to a tracing facility
//! with one channel per level, at the cost of a single check while no observer
//! is attached.
//!
//! The library holds the three parts that decide what an observer sees:
//!
//! - the [`serializer`], which flattens the typed attributes of an event and of
//!   its logging context into one JSON map;
//! - the [`message`] model and its builder;
//! - the sink in [`drain`], which builds a message only for an event whose
//!   channel is enabled.
//!
//! Every function states its behaviour in a contract that is proved of its
//! body. The calls into `serde_json` and `chrono` are the exception: what
//! they do is stated in [`json`] and [`clock`] and taken on trust.
//!
//! The library does no I/O. Registering the probes, reading the state of the
//! channels and firing a probe belong to the program around it.

pub mod attribute;
pub mod clock;
pub mod drain;
pub mod json;
pub mod level;
pub mod message;
pub mod serializer;

pub use attribute::{Attribute, AttributeValue};
pub use clock::Timestamp;
pub use drain::{with_drain, Dtrace, Duplicate, ProbeRegistration};
pub use json::JsonMap;
pub use level::{Channels, LevelTag};
pub use message::{Location, Message};
