//! Log events of a request, as values. Each carries the identifier of the
//! request it belongs to and the submitted address and name, so that the
//! lines of one subscription attempt can be found together. Writing them
//! out is the caller's business.

use vstd::prelude::*;

verus! {

/// How serious an event is.
#[derive(Debug, Clone, Copy, PartialEq, Eq, Structural)]
pub enum Level {
    Info,
    Error,
}

/// Where in the life of a request an event stands.
#[derive(Debug, Clone, Copy, PartialEq, Eq, Structural)]
pub enum Stage {
    /// The submission was accepted and is about to be stored.
    Started,
    /// The store has taken the record.
    Saved,
    /// The store has refused the record or could not be reached.
    Failed,
}

impl Stage {
    /// The level at which an event of this stage is logged: only a failure
    /// is an error.
    pub open spec fn level_of(self) -> Level {
        match self {
            Stage::Failed => Level::Error,
            _ => Level::Info,
        }
    }

    /// The level at which an event of this stage is logged.
    pub fn level(self) -> (level: Level)
        ensures
            level == self.level_of(),
    {
        match self {
            Stage::Failed => Level::Error,
            _ => Level::Info,
        }
    }
}

/// A log event as a mathematical value.
pub ghost struct Entry {
    pub request_id: u128,
    pub email: Seq<char>,
    pub name: Seq<char>,
    pub stage: Stage,
    pub cause: Option<Seq<char>>,
}

/// One log event of a request.
#[derive(Debug)]
pub struct LogEvent {
    /// Identifier of the request that the event belongs to.
    pub request_id: u128,
    /// The submitted address.
    pub email: String,
    /// The submitted name.
    pub name: String,
    pub stage: Stage,
    /// What the store reported, for a failure; nothing otherwise.
    pub cause: Option<String>,
}

impl View for LogEvent {
    type V = Entry;

    open spec fn view(&self) -> Entry {
        Entry {
            request_id: self.request_id,
            email: self.email@,
            name: self.name@,
            stage: self.stage,
            cause: match self.cause {
                Some(cause) => Some(cause@),
                None => None,
            },
        }
    }
}

impl LogEvent {
    /// The level at which the event is logged.
    pub fn level(&self) -> (level: Level)
        ensures
            level == self@.stage.level_of(),
    {
        self.stage.level()
    }
}

} // verus!
