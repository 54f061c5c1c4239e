//! A request from end to end, as the client and the table see it.
//!
//! The store is not part of this crate. What is said here of rows rests on
//! one thing that the store is relied on for: an insert is carried out as a
//! whole or not at all, so a request whose insert succeeded has added its
//! record and nothing else, and any other request has added nothing.

use crate::form::{email_key, is_complete, lemma_accepted_iff_complete, name_key, values_of};
use crate::response::{BAD_REQUEST, INTERNAL_SERVER_ERROR, OK};
use crate::subscriber::Row;
use crate::subscriptions::{closing_status, decided, Intake};
use vstd::prelude::*;

verus! {

/// The status that the client gets. `stored` says whether the store took
/// the record; it plays no part for a request that was rejected.
pub open spec fn status_of(intake: Intake, stored: bool) -> u16 {
    match intake {
        Intake::Rejected { response, .. } => response.status,
        Intake::Accepted(_) => closing_status(stored),
    }
}

/// The rows that the request has added to the table.
pub open spec fn rows_added(intake: Intake, stored: bool) -> Seq<Row> {
    match intake {
        Intake::Rejected { .. } => Seq::empty(),
        Intake::Accepted(pending) => if stored {
            seq![pending@.record]
        } else {
            Seq::empty()
        },
    }
}

/// The rows that a run of requests has added, in the order in which the
/// store took them, where it took the record of every accepted one.
pub open spec fn rows_added_by(requests: Seq<Intake>) -> Seq<Row>
    decreases requests.len(),
{
    if requests.len() == 0 {
        Seq::empty()
    } else {
        rows_added_by(requests.drop_last()) + rows_added(requests.last(), true)
    }
}

/// A body in which `email` and `name` each stand once, with something in
/// them, is accepted. If the store takes its record, the client gets 200
/// and exactly one row has been added: it holds the submitted address and
/// name, an identifier that is not nil, and a reading of the clock.
pub proof fn lemma_complete_submission_adds_one_row(
    intake: Intake,
    pairs: Seq<(Seq<char>, Seq<char>)>,
    email: Seq<char>,
    name: Seq<char>,
)
    requires
        decided(intake, pairs),
        values_of(pairs, email_key()) == seq![email],
        values_of(pairs, name_key()) == seq![name],
        email.len() > 0,
        name.len() > 0,
    ensures
        intake is Accepted,
        status_of(intake, true) == OK,
        rows_added(intake, true).len() == 1,
        rows_added(intake, true)[0].email == email,
        rows_added(intake, true)[0].name == name,
        rows_added(intake, true)[0].id != 0,
        rows_added(intake, true)[0].subscribed_at.is_reading(),
{
    lemma_accepted_iff_complete(pairs);
}

/// A body that lacks `email`, `name` or both is rejected: the client gets
/// 400 and no row has been added, whatever the store would have done.
pub proof fn lemma_missing_field_adds_no_row(
    intake: Intake,
    pairs: Seq<(Seq<char>, Seq<char>)>,
    stored: bool,
)
    requires
        decided(intake, pairs),
        values_of(pairs, email_key()).len() == 0 || values_of(pairs, name_key()).len() == 0,
    ensures
        intake is Rejected,
        status_of(intake, stored) == BAD_REQUEST,
        rows_added(intake, stored).len() == 0,
{
}

/// The same holds of every body that is not a complete submission, be it
/// for a missing, an empty or a repeated field; and only of those.
pub proof fn lemma_rejected_iff_incomplete(
    intake: Intake,
    pairs: Seq<(Seq<char>, Seq<char>)>,
    stored: bool,
)
    requires
        decided(intake, pairs),
    ensures
        intake is Rejected <==> !is_complete(pairs),
        !is_complete(pairs) ==> status_of(intake, stored) == BAD_REQUEST && rows_added(
            intake,
            stored,
        ).len() == 0,
{
    lemma_accepted_iff_complete(pairs);
}

/// A client sees one of three statuses and no other: 400 for a request
/// that was rejected, 200 or 500 for one that was accepted. A row is added
/// only together with a 200.
pub proof fn lemma_three_statuses(intake: Intake, pairs: Seq<(Seq<char>, Seq<char>)>, stored: bool)
    requires
        decided(intake, pairs),
    ensures
        status_of(intake, stored) == OK || status_of(intake, stored) == BAD_REQUEST || status_of(
            intake,
            stored,
        ) == INTERNAL_SERVER_ERROR,
        rows_added(intake, stored).len() <= 1,
        rows_added(intake, stored).len() == 1 <==> status_of(intake, stored) == OK,
        status_of(intake, stored) == INTERNAL_SERVER_ERROR <==> intake is Accepted && !stored,
{
}

/// Nothing is held against a submission that repeats an earlier one: two
/// requests with the same complete body are both accepted, and if the store
/// takes both records, both clients get 200 and two rows with the same
/// address and name have been added. The rows differ in their identifier
/// and their time wherever the draws and the readings behind them do.
pub proof fn lemma_repeated_submission_adds_a_second_row(
    first: Intake,
    second: Intake,
    pairs: Seq<(Seq<char>, Seq<char>)>,
)
    requires
        decided(first, pairs),
        decided(second, pairs),
        is_complete(pairs),
        first->Accepted_0@.record.id != second->Accepted_0@.record.id,
        first->Accepted_0@.record.subscribed_at != second->Accepted_0@.record.subscribed_at,
    ensures
        status_of(first, true) == OK,
        status_of(second, true) == OK,
        rows_added_by(seq![first, second]).len() == 2,
        rows_added_by(seq![first, second])[0].email == rows_added_by(seq![first, second])[1].email,
        rows_added_by(seq![first, second])[0].name == rows_added_by(seq![first, second])[1].name,
        rows_added_by(seq![first, second])[0].id != rows_added_by(seq![first, second])[1].id,
        rows_added_by(seq![first, second])[0].subscribed_at != rows_added_by(
            seq![first, second],
        )[1].subscribed_at,
{
    lemma_accepted_iff_complete(pairs);
    let both = seq![first, second];
    assert(both.drop_last() =~= seq![first]);
    assert(both.drop_last().drop_last() =~= Seq::<Intake>::empty());
    assert(rows_added_by(both.drop_last().drop_last()) =~= Seq::<Row>::empty());
    assert(rows_added_by(both.drop_last()) =~= seq![first->Accepted_0@.record]);
    assert(rows_added_by(both) =~= seq![first->Accepted_0@.record, second->Accepted_0@.record]);
}

/// However many accepted requests are under way, and in whatever order the
/// store takes their records, each adds exactly one row, its own: after
/// `n` of them the table has `n` rows more.
pub proof fn lemma_each_stored_request_adds_one_row(requests: Seq<Intake>)
    requires
        forall|i: int| 0 <= i < requests.len() ==> requests[i] is Accepted,
    ensures
        rows_added_by(requests).len() == requests.len(),
        forall|i: int|
            0 <= i < requests.len() ==> rows_added_by(requests)[i]
                == requests[i]->Accepted_0@.record,
    decreases requests.len(),
{
    if requests.len() > 0 {
        lemma_each_stored_request_adds_one_row(requests.drop_last());
    }
}

} // verus!
