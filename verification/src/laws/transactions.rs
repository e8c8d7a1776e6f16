//! What the handler of transactions comes to, and how it treats its transaction.
use vstd::prelude::*;

use crate::error::db_error_answer;
use crate::laws::run::{
    comes_to, exchanges, lemma_comes_to_next, lemma_comes_to_self, lemma_comes_to_trans, replay,
    run, times_done, World,
};
use crate::laws::session::session_user;
use crate::lookup::{user_id_request, UserLookup};
use crate::paging::{cursor_for, uri_position, Position};
use crate::protocol::{BodyView, Reply, RequestView, StepView, Via};
use crate::transactions::{
    transactions_at, transactions_next, transactions_request, transactions_start,
    transactions_step, TransactionsState,
};

verus! {

/// The steps of the handler.
pub open spec fn resume_transactions() -> spec_fn(TransactionsState, Reply) -> StepView<
    TransactionsState,
> {
    |state: TransactionsState, reply: Reply| transactions_step(state, reply)
}

/// What follows once the transaction has begun.
pub open spec fn page_end(world: World, user_id: i64, position: Position) -> StepView<
    TransactionsState,
> {
    match cursor_for(position) {
        Some(cursor) => match world(transactions_request(user_id, cursor)).items() {
            Ok(_) => if world(RequestView::Commit).done() is Ok {
                StepView::Answer(Ok(BodyView::Empty))
            } else {
                StepView::Abort
            },
            Err(_) => if world(RequestView::Rollback).done() is Ok {
                StepView::Answer(Err(db_error_answer()))
            } else {
                StepView::Abort
            },
        },
        None => StepView::Abort,
    }
}

/// What a request for the transactions of the user of the session comes to.
pub open spec fn transactions_end(world: World, uri: Seq<char>) -> StepView<TransactionsState> {
    if world(RequestView::Acquire).done() is Err {
        StepView::Abort
    } else {
        match session_user(world, Via::Connection) {
            Err(e) => StepView::Answer(Err(e)),
            Ok(user) => match uri_position(uri) {
                None => StepView::Abort,
                Some(Err(e)) => StepView::Answer(Err(e)),
                Some(Ok(position)) => if world(RequestView::Begin).done() is Err {
                    StepView::Answer(Err(db_error_answer()))
                } else {
                    page_end(world, user.id, position)
                },
            },
        }
    }
}

/// However many rows are left, the handler comes to the commit.
proof fn lemma_reaches_commit(world: World, left: nat)
    ensures
        comes_to(
            resume_transactions(),
            world,
            transactions_next(left),
            StepView::Ask(TransactionsState::Commit, RequestView::Commit),
        ),
    decreases left,
{
    let resume = resume_transactions();
    let commit = StepView::Ask(TransactionsState::Commit, RequestView::Commit);
    lemma_comes_to_self(resume, world, commit);
    if left > 0 {
        lemma_reaches_commit(world, (left - 1) as nat);
        let state = TransactionsState::Sellers(
            (left - 1) as nat,
            UserLookup::Session(Via::Transaction),
        );
        let next = resume(state, world(user_id_request()));
        if let StepView::Ask(TransactionsState::Sellers(rest, UserLookup::Row), request) = next {
            lemma_comes_to_next(
                resume,
                world,
                TransactionsState::Sellers(rest, UserLookup::Row),
                request,
                commit,
            );
        }
        lemma_comes_to_next(resume, world, state, user_id_request(), commit);
    }
}

/// A request for the transactions of the user of the session gets an empty answer once
/// the rows of its page could be read and the transaction committed. Otherwise what
/// failed first decides: the session and its user, the position in the URI, the begin of
/// the transaction, the rows. It gets no answer where its URI is no URL, its time lies
/// beyond the range of dates, or no connection, commit or rollback can be had.
pub proof fn law_transactions(world: World, uri: Seq<char>)
    ensures
        comes_to(
            resume_transactions(),
            world,
            transactions_start(uri),
            transactions_end(world, uri),
        ),
{
    let resume = resume_transactions();
    let end = transactions_end(world, uri);
    lemma_comes_to_self(resume, world, end);
    reveal_with_fuel(run, 8);
    let user = session_user(world, Via::Connection);
    if world(RequestView::Acquire).done() is Err || user is Err {
        assert(run(resume, world, transactions_start(uri), 3) == end);
    } else {
        let next = transactions_at(user->Ok_0.id, uri_position(uri));
        assert(run(resume, world, transactions_start(uri), 3) == run(resume, world, next, 0));
        if let Some(Ok(position)) = uri_position(uri) {
            let begun = run(resume, world, next, 1);
            if let StepView::Ask(TransactionsState::Rows, request) = begun {
                if let Ok(rows) = world(request).items() {
                    let commit = StepView::Ask(TransactionsState::Commit, RequestView::Commit);
                    assert(resume(TransactionsState::Commit, world(RequestView::Commit)) == end);
                    lemma_comes_to_next(
                        resume,
                        world,
                        TransactionsState::Commit,
                        RequestView::Commit,
                        end,
                    );
                    lemma_reaches_commit(world, rows@.len());
                    lemma_comes_to_trans(
                        resume,
                        world,
                        transactions_next(rows@.len()),
                        commit,
                        end,
                    );
                    lemma_comes_to_next(resume, world, TransactionsState::Rows, request, end);
                } else {
                    assert(run(resume, world, begun, 2) == end);
                }
            } else {
                assert(begun == end);
            }
            assert(run(resume, world, next, 1) == begun);
            lemma_comes_to_trans(resume, world, next, begun, end);
        }
        assert(comes_to(resume, world, next, end));
        assert(run(resume, world, transactions_start(uri), 3) == next);
        lemma_comes_to_trans(resume, world, transactions_start(uri), next, end);
    }
}

/// The connection that a request goes through.
pub open spec fn request_via(request: RequestView) -> Option<Via> {
    match request {
        RequestView::Items(query) => Some(query.via),
        RequestView::User(query) => Some(query.via),
        RequestView::Category(query) => Some(query.via),
        RequestView::CategoryIds(query) => Some(query.via),
        RequestView::Categories(query) => Some(query.via),
        RequestView::Config(query) => Some(query.via),
        RequestView::Reports(query) => Some(query.via),
        RequestView::Execute(query) => Some(query.via),
        _ => None,
    }
}

/// What the handler has done to its transaction when it stands at `step`.
spec fn keeps_books(
    step: StepView<TransactionsState>,
    begun: nat,
    committed: nat,
    rolled_back: nat,
) -> bool {
    match step {
        StepView::Ask(state, request) => {
            &&& committed == 0
            &&& rolled_back == 0
            &&& request == RequestView::Begin <==> state is Begin
            &&& request == RequestView::Commit <==> state is Commit
            &&& request == RequestView::Rollback <==> state is Rollback
            &&& match state {
                TransactionsState::Acquire(_) | TransactionsState::Begin(_, _) => begun == 0
                    && request_via(request) is None,
                TransactionsState::User(_, lookup) => begun == 0 && request_via(request) != Some(
                    Via::Transaction,
                ) && (lookup matches UserLookup::Session(via) ==> via == Via::Connection),
                _ => begun == 1,
            }
        },
        StepView::Answer(answer) => {
            &&& begun <= 1
            &&& begun == committed + rolled_back
            &&& answer is Ok <==> committed == 1
        },
        StepView::Abort => committed + rolled_back <= begun <= 1,
    }
}

proof fn lemma_books(uri: Seq<char>, replies: Seq<Reply>)
    ensures
        ({
            let resume = resume_transactions();
            let log = exchanges(resume, transactions_start(uri), replies);
            keeps_books(
                replay(resume, transactions_start(uri), replies),
                times_done(log, RequestView::Begin),
                times_done(log, RequestView::Commit),
                times_done(log, RequestView::Rollback),
            )
        }),
    decreases replies.len(),
{
    if replies.len() > 0 {
        let resume = resume_transactions();
        let start = transactions_start(uri);
        lemma_books(uri, replies.drop_last());
        let before = exchanges(resume, start, replies.drop_last());
        let log = exchanges(resume, start, replies);
        if let StepView::Ask(state, request) = replay(resume, start, replies.drop_last()) {
            assert(log.drop_last() =~= before);
        }
    }
}

/// Whatever the replies: the handler begins at most one transaction, an answer leaves
/// none open, and the answer is a success exactly where the transaction was committed.
/// While it waits for a reply from inside a transaction, that transaction is open.
pub proof fn law_transaction_is_closed(uri: Seq<char>, replies: Seq<Reply>)
    ensures
        ({
            let resume = resume_transactions();
            let log = exchanges(resume, transactions_start(uri), replies);
            let begun = times_done(log, RequestView::Begin);
            let committed = times_done(log, RequestView::Commit);
            let rolled_back = times_done(log, RequestView::Rollback);
            &&& begun <= 1
            &&& match replay(resume, transactions_start(uri), replies) {
                StepView::Ask(_, request) => request_via(request) == Some(Via::Transaction)
                    || request == RequestView::Commit || request == RequestView::Rollback
                    ==> begun == 1 && committed == 0 && rolled_back == 0,
                StepView::Answer(answer) => begun == committed + rolled_back && (answer is Ok
                    <==> committed == 1),
                StepView::Abort => true,
            }
        }),
{
    lemma_books(uri, replies);
}

} // verus!
