//! What a request for transactions asks for and answers, whatever the replies.
use vstd::prelude::*;

use crate::error::{ErrorView, StatusCode};
use crate::laws::run::{exchanges, lemma_exchanges, replay};
use crate::laws::transactions::resume_transactions;
use crate::lookup::{user_id_request, user_request, UserLookup};
use crate::model::User;
use crate::paging::{cursor_for, uri_position, Position};
use crate::protocol::{Failure, Reply, RequestView, StepView, Via};
use crate::transactions::{transactions_request, transactions_start, TransactionsState};

verus! {

/// How often the session has been asked for its user.
pub open spec fn session_lookups(done: Seq<(RequestView, Reply)>) -> nat
    decreases done.len(),
{
    if done.len() == 0 {
        0
    } else {
        session_lookups(done.drop_last()) + if done.last().0 is SessionInteger {
            1nat
        } else {
            0nat
        }
    }
}

/// The user that was found for the session.
pub open spec fn found_user(done: Seq<(RequestView, Reply)>) -> User {
    done[2].1->User_0->Ok_0
}

/// The rows of the page could be read.
pub open spec fn rows_read(done: Seq<(RequestView, Reply)>) -> bool {
    done[4].1 matches Reply::Items(Ok(_))
}

/// The number of rows of the page.
pub open spec fn rows_count(done: Seq<(RequestView, Reply)>) -> nat {
    done[4].1->Items_0->Ok_0@.len()
}

/// What a handler of a request for transactions asks for: a connection, the id of the user
/// of the session, that user, a transaction, and the page of the rows of that user that
/// the URI names.
pub open spec fn asks_for_page(done: Seq<(RequestView, Reply)>, uri: Seq<char>) -> bool {
    &&& done.len() > 0 ==> done[0].0 == RequestView::Acquire
    &&& done.len() > 1 ==> {
        &&& done[0].1 matches Reply::Done(Ok(_))
        &&& done[1].0 == RequestView::SessionInteger("user_id"@)
    }
    &&& done.len() > 2 ==> {
        &&& done[1].1 matches Reply::SessionInteger(Ok(Some(id))) && done[2].0 == user_request(
            Via::Connection,
            id,
        )
    }
    &&& done.len() > 3 ==> {
        &&& done[2].1 matches Reply::User(Ok(_))
        &&& uri_position(uri) matches Some(Ok(_))
        &&& done[3].0 == RequestView::Begin
    }
    &&& done.len() > 4 ==> {
        &&& done[3].1 matches Reply::Done(Ok(_))
        &&& cursor_for(uri_position(uri)->0->Ok_0) matches Some(cursor) && done[4].0
            == transactions_request(found_user(done).id, cursor)
    }
}

/// What it asks for after the rows: where they could not be read, a rollback. Else it
/// looks the user of the session up, from inside the transaction, once for each row, and
/// then commits.
pub open spec fn asks_for_end(done: Seq<(RequestView, Reply)>, i: int) -> bool {
    if !rows_read(done) {
        i == 5 && done[5].0 == RequestView::Rollback
    } else {
        ||| done[i].0 == RequestView::SessionInteger("user_id"@)
        ||| done[i - 1].0 == RequestView::SessionInteger("user_id"@) && (
        done[i - 1].1 matches Reply::SessionInteger(Ok(Some(id))) && done[i].0 == user_request(
            Via::Transaction,
            id,
        ))
        ||| done[i].0 == RequestView::Commit && i == done.len() - 1 && session_lookups(done) == 1
            + rows_count(done)
    }
}

spec fn transaction_books(
    step: StepView<TransactionsState>,
    done: Seq<(RequestView, Reply)>,
    uri: Seq<char>,
) -> bool {
    &&& asks_for_page(done, uri)
    &&& forall|i: int| 5 <= i < done.len() ==> #[trigger] asks_for_end(done, i)
    &&& match step {
        StepView::Ask(TransactionsState::Acquire(own_uri), request) => {
            done.len() == 0 && own_uri == uri && request == RequestView::Acquire
        },
        StepView::Ask(TransactionsState::User(own_uri, UserLookup::Session(via)), request) => {
            &&& done.len() == 1 && own_uri == uri && via == Via::Connection
            &&& done[0].1.done() is Ok
            &&& request == user_id_request()
            &&& session_lookups(done) == 0
        },
        StepView::Ask(TransactionsState::User(own_uri, UserLookup::Row), request) => {
            &&& done.len() == 2 && own_uri == uri
            &&& done[1].1 matches Reply::SessionInteger(Ok(Some(id))) && request == user_request(
                Via::Connection,
                id,
            )
            &&& session_lookups(done) == 1
        },
        StepView::Ask(TransactionsState::Begin(user_id, position), request) => {
            &&& done.len() == 3
            &&& done[2].1 matches Reply::User(Ok(user)) && user.id == user_id
            &&& uri_position(uri) == Some(Ok::<Position, ErrorView>(position))
            &&& request == RequestView::Begin
            &&& session_lookups(done) == 1
        },
        StepView::Ask(TransactionsState::Rows, request) => {
            &&& done.len() == 4
            &&& done[3].1.done() is Ok
            &&& cursor_for(uri_position(uri)->0->Ok_0) matches Some(cursor) && request
                == transactions_request(found_user(done).id, cursor)
            &&& session_lookups(done) == 1
        },
        StepView::Ask(TransactionsState::Rollback, request) => {
            &&& done.len() == 5 && !rows_read(done)
            &&& request == RequestView::Rollback
        },
        StepView::Ask(TransactionsState::Sellers(left, UserLookup::Session(via)), request) => {
            &&& done.len() >= 5 && rows_read(done) && via == Via::Transaction
            &&& request == user_id_request()
            &&& session_lookups(done) + left == rows_count(done)
            &&& !(done.last().0 is Commit)
        },
        StepView::Ask(TransactionsState::Sellers(left, UserLookup::Row), request) => {
            &&& done.len() > 5 && rows_read(done)
            &&& done.last().0 == user_id_request()
            &&& done.last().1 matches Reply::SessionInteger(Ok(Some(id))) && request
                == user_request(Via::Transaction, id)
            &&& session_lookups(done) + left == 1 + rows_count(done)
        },
        StepView::Ask(TransactionsState::Commit, request) => {
            &&& done.len() >= 5 && rows_read(done)
            &&& request == RequestView::Commit
            &&& session_lookups(done) == 1 + rows_count(done)
            &&& !(done.last().0 is Commit)
        },
        StepView::Abort => {
            ||| done.len() == 1 && done[0].1.done() is Err
            ||| done.len() == 3 && done[2].1.user() is Ok && uri_position(uri) is None
            ||| done.len() == 4 && done[3].1.done() is Ok && cursor_for(
                uri_position(uri)->0->Ok_0,
            ) is None
            ||| done.len() > 5 && (done.last().0 is Commit || done.last().0 is Rollback)
                && done.last().1.done() is Err
        },
        StepView::Answer(Ok(body)) => {
            &&& body is Empty
            &&& done.len() > 5 && done.last().0 is Commit && done.last().1.done() is Ok
        },
        StepView::Answer(Err(e)) => {
            ||| done.len() == 2 && !(done[1].1 matches Reply::SessionInteger(Ok(Some(_)))) && e == (
            ErrorView { status: StatusCode::NotFound, message: "no session"@ })
            ||| done.len() == 3 && done[2].1 == Reply::User(Err(Failure::RowNotFound)) && e == (
            ErrorView { status: StatusCode::NotFound, message: "user not found"@ })
            ||| done.len() == 3 && done[2].1.user() == Err::<User, Failure>(Failure::Other) && e
                == (ErrorView { status: StatusCode::InternalServerError, message: "db error"@ })
            ||| done.len() == 3 && done[2].1.user() is Ok && uri_position(uri)
                == Some(Err::<Position, ErrorView>(e))
            ||| done.len() == 4 && done[3].1.done() is Err && e == (ErrorView {
                status: StatusCode::InternalServerError,
                message: "db error"@,
            })
            ||| done.len() == 6 && done[5].0 is Rollback && done[5].1.done() is Ok && e == (
            ErrorView { status: StatusCode::InternalServerError, message: "db error"@ })
        },
    }
}

proof fn lemma_transaction_books(uri: Seq<char>, replies: Seq<Reply>)
    ensures
        transaction_books(
            replay(resume_transactions(), transactions_start(uri), replies),
            exchanges(resume_transactions(), transactions_start(uri), replies),
            uri,
        ),
    decreases replies.len(),
{
    reveal_with_fuel(session_lookups, 2);
    if replies.len() > 0 {
        let start = transactions_start(uri);
        let before = exchanges(resume_transactions(), start, replies.drop_last());
        let now = exchanges(resume_transactions(), start, replies);
        lemma_transaction_books(uri, replies.drop_last());
        if let StepView::Ask(state, request) = replay(
            resume_transactions(),
            start,
            replies.drop_last(),
        ) {
            assert(now.drop_last() =~= before);
            assert forall|i: int| 0 <= i < before.len() implies #[trigger] now[i] == before[i] by {}
            assert forall|i: int| 5 <= i < now.len() implies #[trigger] asks_for_end(now, i) by {
                if i < before.len() {
                    assert(asks_for_end(before, i));
                    assert(now[i - 1] == before[i - 1]);
                }
            }
        }
    }
}

/// A request for transactions asks for a connection, the id of the user of the session,
/// that user, a transaction, and the page of the items of that user that the URI names.
/// Where the rows could be read it looks the user up once for each row and commits, else
/// it rolls back.
pub proof fn law_transactions_requests(uri: Seq<char>, replies: Seq<Reply>)
    ensures
        ({
            let done = exchanges(resume_transactions(), transactions_start(uri), replies);
            &&& forall|i: int| 0 <= i < done.len() ==> (#[trigger] done[i]).1 == replies[i]
            &&& asks_for_page(done, uri)
            &&& forall|i: int| 5 <= i < done.len() ==> #[trigger] asks_for_end(done, i)
        }),
{
    lemma_transaction_books(uri, replies);
    lemma_exchanges(resume_transactions(), transactions_start(uri), replies);
}

/// A request for transactions gets an empty answer exactly once its transaction has been
/// committed. Where the session names no user, where that user is missing, where the
/// position cannot be read, and where the database fails, it gets the error of that. It
/// gets none where no connection, commit or rollback can be had, where its URI is no URL,
/// and where its time lies beyond the range of dates.
pub proof fn law_transactions_answer(uri: Seq<char>, replies: Seq<Reply>)
    ensures
        ({
            let done = exchanges(resume_transactions(), transactions_start(uri), replies);
            let n = done.len();
            match replay(resume_transactions(), transactions_start(uri), replies) {
                StepView::Ask(_, _) => n == replies.len() && (n > 0 ==> !(done.last().0 is Commit
                    || done.last().0 is Rollback)),
                StepView::Answer(Ok(body)) => {
                    &&& body is Empty
                    &&& n > 5 && done.last().0 is Commit
                    &&& done.last().1 matches Reply::Done(Ok(_))
                },
                StepView::Answer(Err(e)) => if n == 2 {
                    &&& !(done[1].1 matches Reply::SessionInteger(Ok(Some(_))))
                    &&& e.status is NotFound && e.message == "no session"@
                } else if n == 3 {
                    match done[2].1 {
                        Reply::User(Ok(_)) => uri_position(uri) == Some(
                            Err::<Position, ErrorView>(e),
                        ),
                        Reply::User(Err(Failure::RowNotFound)) => e.status is NotFound && e.message
                            == "user not found"@,
                        _ => e.status is InternalServerError && e.message == "db error"@,
                    }
                } else {
                    &&& e.status is InternalServerError && e.message == "db error"@
                    &&& n == 4 || n == 6
                    &&& n == 4 ==> !(done[3].1 matches Reply::Done(Ok(_)))
                    &&& n == 6 ==> done[5].0 is Rollback
                    &&& n == 6 ==> (done[5].1 matches Reply::Done(Ok(_)))
                },
                StepView::Abort => {
                    &&& n == 1 || n == 3 || n == 4 || n > 5
                    &&& n == 1 ==> !(done[0].1 matches Reply::Done(Ok(_)))
                    &&& n == 3 ==> (done[2].1 matches Reply::User(Ok(_))) && uri_position(
                        uri,
                    ) is None
                    &&& n == 4 ==> (done[3].1 matches Reply::Done(Ok(_))) && cursor_for(
                        uri_position(uri)->0->Ok_0,
                    ) is None
                    &&& n > 5 ==> (done.last().0 is Commit || done.last().0 is Rollback) && !(
                    done.last().1 matches Reply::Done(Ok(_)))
                },
            }
        }),
{
    lemma_transaction_books(uri, replies);
    lemma_exchanges(resume_transactions(), transactions_start(uri), replies);
}

} // verus!
