//! The stored record of one accepted submission.

use crate::clock::Timestamp;
use crate::form::FormData;
use vstd::prelude::*;

verus! {

/// A row of the subscriptions table, as a mathematical value.
pub ghost struct Row {
    pub id: u128,
    pub email: Seq<char>,
    pub name: Seq<char>,
    pub subscribed_at: Timestamp,
}

/// One subscriber: what the client submitted, with the identifier and the
/// time that the service added. Nothing of it changes once it is made.
#[derive(Debug)]
pub struct Subscriber {
    id: u128,
    email: String,
    name: String,
    subscribed_at: Timestamp,
}

impl View for Subscriber {
    type V = Row;

    closed spec fn view(&self) -> Row {
        Row {
            id: self.id,
            email: self.email@,
            name: self.name@,
            subscribed_at: self.subscribed_at,
        }
    }
}

impl Subscriber {
    #[verifier::type_invariant]
    spec fn populated(self) -> bool {
        self.email@.len() > 0 && self.name@.len() > 0
    }

    /// The row for a submission, under the given identifier and time.
    pub open spec fn row_of(form: FormData, id: u128, subscribed_at: Timestamp) -> Row {
        Row { id, email: form@.email, name: form@.name, subscribed_at }
    }

    /// Makes the record of a submission. The address and the name are the
    /// submitted ones; the identifier and the time are never the client's.
    pub fn new(form: &FormData, id: u128, subscribed_at: Timestamp) -> (subscriber: Subscriber)
        ensures
            subscriber@ == Self::row_of(*form, id, subscribed_at),
    {
        Subscriber {
            id,
            email: form.email().to_owned(),
            name: form.name().to_owned(),
            subscribed_at,
        }
    }

    /// The identifier under which the record is stored.
    pub fn id(&self) -> (id: u128)
        ensures
            id == self@.id,
    {
        self.id
    }

    /// The subscriber's address, which is never empty.
    pub fn email(&self) -> (email: &str)
        ensures
            email@ == self@.email,
            email@.len() > 0,
    {
        proof {
            use_type_invariant(self);
        }
        self.email.as_str()
    }

    /// The subscriber's name, which is never empty.
    pub fn name(&self) -> (name: &str)
        ensures
            name@ == self@.name,
            name@.len() > 0,
    {
        proof {
            use_type_invariant(self);
        }
        self.name.as_str()
    }

    /// The time at which the submission was taken in.
    pub fn subscribed_at(&self) -> (subscribed_at: Timestamp)
        ensures
            subscribed_at == self@.subscribed_at,
    {
        self.subscribed_at
    }
}

} // verus!
