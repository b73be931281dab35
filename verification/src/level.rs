//! Severity levels and the per-level channels of the tracing facility.

use vstd::prelude::*;

verus! {

/// The severity of a log event. Each level is bound to one channel of the
/// tracing facility.
#[derive(Clone, Copy, Debug, PartialEq, Eq, Structural)]
pub enum LevelTag {
    Trace,
    Debug,
    Info,
    Warn,
    Error,
    Critical,
}

/// `==` on two string slices, which std documents as equality of their
/// contents.
#[verifier::external_body]
fn str_eq(a: &str, b: &str) -> (equal: bool)
    ensures
        equal == (a@ == b@),
{
    a == b
}

impl LevelTag {
    /// The position of a level in the order of severity, `Trace` lowest.
    pub open spec fn rank(self) -> nat {
        match self {
            LevelTag::Trace => 0,
            LevelTag::Debug => 1,
            LevelTag::Info => 2,
            LevelTag::Warn => 3,
            LevelTag::Error => 4,
            LevelTag::Critical => 5,
        }
    }

    /// The name of a level as it appears in a payload.
    pub open spec fn name(self) -> Seq<char> {
        match self {
            LevelTag::Trace => "TRACE"@,
            LevelTag::Debug => "DEBUG"@,
            LevelTag::Info => "INFO"@,
            LevelTag::Warn => "WARN"@,
            LevelTag::Error => "ERROR"@,
            LevelTag::Critical => "CRITICAL"@,
        }
    }

    /// The position of this level in the order of severity.
    pub fn severity(self) -> (rank: u8)
        ensures
            rank == self.rank(),
    {
        match self {
            LevelTag::Trace => 0,
            LevelTag::Debug => 1,
            LevelTag::Info => 2,
            LevelTag::Warn => 3,
            LevelTag::Error => 4,
            LevelTag::Critical => 5,
        }
    }

    /// Whether this level is as severe as `other`, or more.
    pub fn is_at_least(self, other: LevelTag) -> (yes: bool)
        ensures
            yes == (self.rank() >= other.rank()),
    {
        self.severity() >= other.severity()
    }

    /// The level that a payload names: the one level whose name is `name`,
    /// or none where `name` is the name of no level.
    pub fn from_name(name: &str) -> (level: Option<LevelTag>)
        ensures
            level matches Some(found) ==> found.name() == name@,
            forall|any: LevelTag| any.name() == name@ ==> level == Some(any),
    {
        let level = if str_eq(name, "TRACE") {
            Some(LevelTag::Trace)
        } else if str_eq(name, "DEBUG") {
            Some(LevelTag::Debug)
        } else if str_eq(name, "INFO") {
            Some(LevelTag::Info)
        } else if str_eq(name, "WARN") {
            Some(LevelTag::Warn)
        } else if str_eq(name, "ERROR") {
            Some(LevelTag::Error)
        } else if str_eq(name, "CRITICAL") {
            Some(LevelTag::Critical)
        } else {
            None
        };
        proof {
            assert forall|any: LevelTag| any.name() == name@ implies level == Some(any) by {
                if let Some(found) = level {
                    lemma_names_are_distinct(any, found);
                }
            }
        }
        level
    }

    /// The name of this level as it appears in a payload.
    pub fn as_str(self) -> (name: &'static str)
        ensures
            name@ == self.name(),
    {
        match self {
            LevelTag::Trace => "TRACE",
            LevelTag::Debug => "DEBUG",
            LevelTag::Info => "INFO",
            LevelTag::Warn => "WARN",
            LevelTag::Error => "ERROR",
            LevelTag::Critical => "CRITICAL",
        }
    }
}

/// The six levels have six different names, so a payload's name stands for
/// one level only.
pub proof fn lemma_names_are_distinct(a: LevelTag, b: LevelTag)
    ensures
        a.name() == b.name() <==> a == b,
{
    reveal_strlit("TRACE");
    reveal_strlit("DEBUG");
    reveal_strlit("INFO");
    reveal_strlit("WARN");
    reveal_strlit("ERROR");
    reveal_strlit("CRITICAL");
    if a != b && a.name() == b.name() {
        // no two names start with the same letter
        assert(a.name()[0] == b.name()[0]);
    }
}

/// Severity orders the levels totally: two levels of equal rank are the same
/// level, and of two different levels one ranks strictly above the other.
pub proof fn lemma_severity_is_total(a: LevelTag, b: LevelTag)
    ensures
        a.rank() == b.rank() <==> a == b,
        a.rank() < b.rank() || a.rank() > b.rank() || a == b,
{
}

/// What the tracing facility reports of its six channels: for each level,
/// whether an observer is attached to it. The facility owns this state; a
/// value of this type is one reading of it.
#[derive(Clone, Copy, Debug, PartialEq, Eq, Structural)]
pub struct Channels {
    pub trace: bool,
    pub debug: bool,
    pub info: bool,
    pub warn: bool,
    pub error: bool,
    pub critical: bool,
}

impl Channels {
    /// Whether the channel of `level` is reported enabled.
    pub open spec fn enabled(self, level: LevelTag) -> bool {
        match level {
            LevelTag::Trace => self.trace,
            LevelTag::Debug => self.debug,
            LevelTag::Info => self.info,
            LevelTag::Warn => self.warn,
            LevelTag::Error => self.error,
            LevelTag::Critical => self.critical,
        }
    }

    /// A reading in which no channel is enabled.
    pub fn none() -> (channels: Channels)
        ensures
            forall|level: LevelTag| !channels.enabled(level),
    {
        Channels { trace: false, debug: false, info: false, warn: false, error: false, critical: false }
    }

    /// A reading in which every channel is enabled.
    pub fn all() -> (channels: Channels)
        ensures
            forall|level: LevelTag| channels.enabled(level),
    {
        Channels { trace: true, debug: true, info: true, warn: true, error: true, critical: true }
    }

    /// A reading in which the channel of `level` is enabled and no other.
    pub fn only(level: LevelTag) -> (channels: Channels)
        ensures
            forall|other: LevelTag| channels.enabled(other) <==> other == level,
    {
        Channels::none().with(level, true)
    }

    /// This reading with the channel of `level` set to `on`. The other five
    /// channels are as before.
    pub fn with(self, level: LevelTag, on: bool) -> (channels: Channels)
        ensures
            channels.enabled(level) == on,
            forall|other: LevelTag| other != level ==> channels.enabled(other) == self.enabled(other),
    {
        let mut channels = self;
        match level {
            LevelTag::Trace => { channels.trace = on; },
            LevelTag::Debug => { channels.debug = on; },
            LevelTag::Info => { channels.info = on; },
            LevelTag::Warn => { channels.warn = on; },
            LevelTag::Error => { channels.error = on; },
            LevelTag::Critical => { channels.critical = on; },
        }
        channels
    }

    /// Whether the channel of `level` is reported enabled.
    pub fn is_enabled(&self, level: LevelTag) -> (yes: bool)
        ensures
            yes == self.enabled(level),
    {
        match level {
            LevelTag::Trace => self.trace,
            LevelTag::Debug => self.debug,
            LevelTag::Info => self.info,
            LevelTag::Warn => self.warn,
            LevelTag::Error => self.error,
            LevelTag::Critical => self.critical,
        }
    }
}

} // verus!
