//! The intake of one subscription request.
//!
//! A request passes two decisions. The first is made on its body: an
//! incomplete submission is turned away with 400 and nothing is stored for
//! it. The second is made on what the store reports about the one insert
//! that an accepted submission asks for: 200 if the record was taken, 500 if
//! not. The insert itself is carried out by the caller, between the two.

use crate::clock::{now, Timestamp};
use crate::form::{form_of, form_pairs, FormData, ValidationError};
use crate::identity::{is_random, lemma_random_is_not_nil, random};
use crate::response::{Response, BAD_REQUEST, INTERNAL_SERVER_ERROR, OK};
use crate::subscriber::{Row, Subscriber};
use crate::telemetry::{Entry, LogEvent, Stage};
use vstd::prelude::*;

verus! {

/// A failure of the store, with what it reported as the cause.
#[derive(Debug)]
pub struct PersistenceError {
    pub cause: String,
}

/// An accepted request that waits for its insert, as a mathematical value.
pub ghost struct Ticket {
    pub request_id: u128,
    pub record: Row,
}

/// The event that opens the log of an accepted request.
pub open spec fn opening_entry(ticket: Ticket) -> Entry {
    Entry {
        request_id: ticket.request_id,
        email: ticket.record.email,
        name: ticket.record.name,
        stage: Stage::Started,
        cause: None,
    }
}

/// The event that closes the log of a request, given what the store
/// reported: nothing for a record that was taken, the cause otherwise.
pub open spec fn closing_entry(ticket: Ticket, failure: Option<Seq<char>>) -> Entry {
    Entry {
        request_id: ticket.request_id,
        email: ticket.record.email,
        name: ticket.record.name,
        stage: if failure is None {
            Stage::Saved
        } else {
            Stage::Failed
        },
        cause: failure,
    }
}

/// The status that answers an accepted request.
pub open spec fn closing_status(stored: bool) -> u16 {
    if stored {
        OK
    } else {
        INTERNAL_SERVER_ERROR
    }
}

/// What the store reported, as a mathematical value.
pub open spec fn failure_of(outcome: Result<(), PersistenceError>) -> Option<Seq<char>> {
    match outcome {
        Ok(_) => None,
        Err(error) => Some(error.cause@),
    }
}

/// An accepted request: the record to insert, and the identifier under
/// which everything that is logged for the request is filed.
#[derive(Debug)]
pub struct Pending {
    request_id: u128,
    record: Subscriber,
}

impl View for Pending {
    type V = Ticket;

    closed spec fn view(&self) -> Ticket {
        Ticket { request_id: self.request_id, record: self.record@ }
    }
}

/// The end of a request: what the client gets, and the last log event.
#[derive(Debug)]
pub struct Completion {
    pub response: Response,
    pub event: LogEvent,
}

impl Pending {
    /// Accepts a submission under a request identifier, with the identifier
    /// and the time that its record is to carry.
    pub fn open(form: FormData, request_id: u128, id: u128, now: Timestamp) -> (pending: Pending)
        ensures
            pending@ == (Ticket { request_id, record: Subscriber::row_of(form, id, now) }),
    {
        Pending { request_id, record: Subscriber::new(&form, id, now) }
    }

    /// The identifier that ties the log events of this request together.
    pub fn request_id(&self) -> (request_id: u128)
        ensures
            request_id == self@.request_id,
    {
        self.request_id
    }

    /// The one record that the store is asked to insert for this request.
    pub fn record(&self) -> (record: &Subscriber)
        ensures
            record@ == self@.record,
    {
        &self.record
    }

    /// The event to log before the insert is tried.
    pub fn started(&self) -> (event: LogEvent)
        ensures
            event@ == opening_entry(self@),
    {
        LogEvent {
            request_id: self.request_id,
            email: self.record.email().to_owned(),
            name: self.record.name().to_owned(),
            stage: Stage::Started,
            cause: None,
        }
    }

    /// Ends the request with what the store reported about the insert:
    /// 200 for a record that was taken, 500 and an error event otherwise.
    /// Either way the body is empty and the insert is not tried again.
    pub fn complete(self, outcome: Result<(), PersistenceError>) -> (done: Completion)
        ensures
            done.response.is_bare(closing_status(outcome is Ok)),
            done.event@ == closing_entry(self@, failure_of(outcome)),
    {
        let email = self.record.email().to_owned();
        let name = self.record.name().to_owned();
        match outcome {
            Ok(_) => Completion {
                response: Response::empty(OK),
                event: LogEvent {
                    request_id: self.request_id,
                    email,
                    name,
                    stage: Stage::Saved,
                    cause: None,
                },
            },
            Err(error) => Completion {
                response: Response::empty(INTERNAL_SERVER_ERROR),
                event: LogEvent {
                    request_id: self.request_id,
                    email,
                    name,
                    stage: Stage::Failed,
                    cause: Some(error.cause),
                },
            },
        }
    }
}

/// Takes in a complete submission: draws an identifier for the request and
/// one for the record, reads the clock, and hands back the request as it
/// waits for its insert.
///
/// The record carries the submitted address and name. Which identifiers and
/// which time it gets is not in this function's hands; they are random
/// identifiers, hence never nil, and a reading of the clock.
pub fn subscribe(form: FormData) -> (pending: Pending)
    ensures
        pending@.record.email == form@.email,
        pending@.record.name == form@.name,
        is_random(pending@.request_id),
        is_random(pending@.record.id),
        pending@.record.id != 0,
        pending@.record.subscribed_at.is_reading(),
{
    let request_id: u128 = random();
    let id: u128 = random();
    let subscribed_at = now();
    proof {
        lemma_random_is_not_nil(id);
    }
    Pending::open(form, request_id, id, subscribed_at)
}

/// The first decision on a request.
#[derive(Debug)]
pub enum Intake {
    /// The body is not a complete submission. Nothing is to be stored.
    Rejected { error: ValidationError, response: Response },
    /// The body is a complete submission. Its record is to be inserted.
    Accepted(Pending),
}

/// Whether the first decision is the one that the rules give for the
/// decoded pairs of a body.
pub open spec fn decided(intake: Intake, pairs: Seq<(Seq<char>, Seq<char>)>) -> bool {
    match form_of(pairs) {
        Err(expected) => {
            &&& intake matches Intake::Rejected { error, response }
            &&& error == expected
            &&& response.is_bare(BAD_REQUEST)
        },
        Ok(fields) => {
            &&& intake matches Intake::Accepted(pending)
            &&& pending@.record.email == fields.email
            &&& pending@.record.name == fields.name
            &&& is_random(pending@.request_id)
            &&& is_random(pending@.record.id)
            &&& pending@.record.id != 0
            &&& pending@.record.subscribed_at.is_reading()
        },
    }
}

/// Decodes the body of a request and makes the first decision on it: an
/// incomplete submission is rejected with 400, a complete one is taken in.
pub fn receive(body: &[u8]) -> (intake: Intake)
    ensures
        decided(intake, form_pairs(body@)),
{
    match FormData::parse(body) {
        Ok(form) => Intake::Accepted(subscribe(form)),
        Err(error) => Intake::Rejected { error, response: Response::empty(BAD_REQUEST) },
    }
}

} // verus!
