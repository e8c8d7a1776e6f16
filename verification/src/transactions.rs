//! The transactions of the user of a session.
use vstd::prelude::*;

use crate::error::{by_view, db_error, db_error_answer, CustomError, ErrorView};
use crate::lookup::{get_user, user_id_request, user_step, UserLookup, UserStep, UserStepView};
use crate::model::{
    ITEM_STATUS_CANCEL, ITEM_STATUS_ON_SALE, ITEM_STATUS_SOLD_OUT, ITEM_STATUS_STOP,
    ITEM_STATUS_TRADING, TRANSACTIONS_PER_PAGE,
};
use crate::paging::{cursor_for, position_in_uri, uri_position, Cursor, CursorView, Position};
use crate::protocol::{
    bind_views, Bind, BindView, Body, BodyView, Query, QueryView, Reply, Request, RequestView,
    Step, StepView, Via,
};

verus! {

/// The request for a page of the items that a user sells or has bought.
pub open spec fn transactions_request(user_id: i64, cursor: CursorView) -> RequestView {
    RequestView::Items(
        match cursor {
            CursorView::After(created_at, item_id) => QueryView {
                via: Via::Transaction,
                sql: "SELECT * FROM `items` WHERE (`seller_id` = ? OR `buyer_id` = ?) AND `status` IN (?,?,?,?,?) AND (`created_at` < ?  OR (`created_at` <= ? AND `id` < ?)) ORDER BY `created_at` DESC, `id` DESC LIMIT ?"@,
                binds: seq![
                    BindView::Int(user_id as int),
                    BindView::Int(user_id as int),
                    BindView::Text(ITEM_STATUS_ON_SALE@),
                    BindView::Text(ITEM_STATUS_TRADING@),
                    BindView::Text(ITEM_STATUS_SOLD_OUT@),
                    BindView::Text(ITEM_STATUS_CANCEL@),
                    BindView::Text(ITEM_STATUS_STOP@),
                    BindView::DateTime(created_at),
                    BindView::DateTime(created_at),
                    BindView::Int(item_id as int),
                    BindView::UInt(TRANSACTIONS_PER_PAGE + 1),
                ],
            },
            CursorView::FirstPage => QueryView {
                via: Via::Transaction,
                sql: "SELECT * FROM `items` WHERE (`seller_id` = ? OR `buyer_id` = ?) AND `status` IN (?,?,?,?,?) ORDER BY `created_at` DESC, `id` DESC LIMIT ?"@,
                binds: seq![
                    BindView::Int(user_id as int),
                    BindView::Int(user_id as int),
                    BindView::Text(ITEM_STATUS_ON_SALE@),
                    BindView::Text(ITEM_STATUS_TRADING@),
                    BindView::Text(ITEM_STATUS_SOLD_OUT@),
                    BindView::Text(ITEM_STATUS_CANCEL@),
                    BindView::Text(ITEM_STATUS_STOP@),
                    BindView::UInt(TRANSACTIONS_PER_PAGE + 1),
                ],
            },
        },
    )
}

fn ask_transactions(user_id: i64, cursor: Cursor) -> (request: Request)
    ensures
        request@ == transactions_request(user_id, cursor@),
{
    match cursor {
        Cursor::After(created_at, item_id) => {
            let binds = vec![
                Bind::Int(user_id),
                Bind::Int(user_id),
                Bind::Text(ITEM_STATUS_ON_SALE.to_string()),
                Bind::Text(ITEM_STATUS_TRADING.to_string()),
                Bind::Text(ITEM_STATUS_SOLD_OUT.to_string()),
                Bind::Text(ITEM_STATUS_CANCEL.to_string()),
                Bind::Text(ITEM_STATUS_STOP.to_string()),
                Bind::DateTime(created_at),
                Bind::DateTime(created_at),
                Bind::Int(item_id),
                Bind::UInt(TRANSACTIONS_PER_PAGE + 1),
            ];
            assert(bind_views(binds@) =~= transactions_request(user_id, cursor@)->Items_0.binds);
            Request::Items(
                Query::new(
                    Via::Transaction,
                    "SELECT * FROM `items` WHERE (`seller_id` = ? OR `buyer_id` = ?) AND `status` IN (?,?,?,?,?) AND (`created_at` < ?  OR (`created_at` <= ? AND `id` < ?)) ORDER BY `created_at` DESC, `id` DESC LIMIT ?",
                    binds,
                ),
            )
        },
        Cursor::FirstPage => {
            let binds = vec![
                Bind::Int(user_id),
                Bind::Int(user_id),
                Bind::Text(ITEM_STATUS_ON_SALE.to_string()),
                Bind::Text(ITEM_STATUS_TRADING.to_string()),
                Bind::Text(ITEM_STATUS_SOLD_OUT.to_string()),
                Bind::Text(ITEM_STATUS_CANCEL.to_string()),
                Bind::Text(ITEM_STATUS_STOP.to_string()),
                Bind::UInt(TRANSACTIONS_PER_PAGE + 1),
            ];
            assert(bind_views(binds@) =~= transactions_request(user_id, cursor@)->Items_0.binds);
            Request::Items(
                Query::new(
                    Via::Transaction,
                    "SELECT * FROM `items` WHERE (`seller_id` = ? OR `buyer_id` = ?) AND `status` IN (?,?,?,?,?) ORDER BY `created_at` DESC, `id` DESC LIMIT ?",
                    binds,
                ),
            )
        },
    }
}

/// A handler of a request for the transactions of a user.
#[derive(Debug, PartialEq, Eq)]
pub enum Transactions {
    /// A connection has been asked for, for the request with this URI.
    Acquire(String),
    /// The user of the session is being looked up.
    User(String, UserLookup),
    /// A transaction has been asked for, for the user with this id.
    Begin(i64, Position),
    /// The rows of the page have been asked for.
    Rows,
    /// The rows could not be read, and the transaction is being rolled back.
    Rollback,
    /// The user is being looked up once for each row; so many rows are left after this
    /// one.
    Sellers(usize, UserLookup),
    /// The transaction is being committed.
    Commit,
}

/// The model of the handler.
pub enum TransactionsState {
    Acquire(Seq<char>),
    User(Seq<char>, UserLookup),
    Begin(i64, Position),
    Rows,
    Rollback,
    Sellers(nat, UserLookup),
    Commit,
}

impl View for Transactions {
    type V = TransactionsState;

    open spec fn view(&self) -> TransactionsState {
        match *self {
            Transactions::Acquire(uri) => TransactionsState::Acquire(uri@),
            Transactions::User(uri, lookup) => TransactionsState::User(uri@, lookup),
            Transactions::Begin(user_id, position) => TransactionsState::Begin(user_id, position),
            Transactions::Rows => TransactionsState::Rows,
            Transactions::Rollback => TransactionsState::Rollback,
            Transactions::Sellers(left, lookup) => TransactionsState::Sellers(left as nat, lookup),
            Transactions::Commit => TransactionsState::Commit,
        }
    }
}

/// How the handler begins.
pub open spec fn transactions_start(uri: Seq<char>) -> StepView<TransactionsState> {
    StepView::Ask(TransactionsState::Acquire(uri), RequestView::Acquire)
}

/// How the handler continues with the position that the URI of its request names.
pub open spec fn transactions_at(
    user_id: i64,
    position: Option<Result<Position, ErrorView>>,
) -> StepView<TransactionsState> {
    match position {
        Some(Ok(position)) => StepView::Ask(
            TransactionsState::Begin(user_id, position),
            RequestView::Begin,
        ),
        Some(Err(e)) => StepView::Answer(Err(e)),
        None => StepView::Abort,
    }
}

/// How the handler goes through the rows: for each that is left, it looks the user up
/// once more; after the last, it commits.
pub open spec fn transactions_next(left: nat) -> StepView<TransactionsState> {
    if left > 0 {
        StepView::Ask(
            TransactionsState::Sellers((left - 1) as nat, UserLookup::Session(Via::Transaction)),
            user_id_request(),
        )
    } else {
        StepView::Ask(TransactionsState::Commit, RequestView::Commit)
    }
}

/// How the handler continues with a reply.
pub open spec fn transactions_step(state: TransactionsState, reply: Reply) -> StepView<
    TransactionsState,
> {
    match state {
        TransactionsState::Acquire(uri) => match reply.done() {
            Ok(_) => StepView::Ask(
                TransactionsState::User(uri, UserLookup::Session(Via::Connection)),
                user_id_request(),
            ),
            Err(_) => StepView::Abort,
        },
        TransactionsState::User(uri, lookup) => match user_step(lookup, reply) {
            UserStepView::Ask(lookup, request) => StepView::Ask(
                TransactionsState::User(uri, lookup),
                request,
            ),
            UserStepView::Found(Ok(user)) => transactions_at(user.id, uri_position(uri)),
            UserStepView::Found(Err(e)) => StepView::Answer(Err(e)),
        },
        TransactionsState::Begin(user_id, position) => match reply.done() {
            Ok(_) => match cursor_for(position) {
                Some(cursor) => StepView::Ask(
                    TransactionsState::Rows,
                    transactions_request(user_id, cursor),
                ),
                None => StepView::Abort,
            },
            Err(_) => StepView::Answer(Err(db_error_answer())),
        },
        TransactionsState::Rows => match reply.items() {
            Ok(rows) => transactions_next(rows@.len()),
            Err(_) => StepView::Ask(TransactionsState::Rollback, RequestView::Rollback),
        },
        TransactionsState::Rollback => match reply.done() {
            Ok(_) => StepView::Answer(Err(db_error_answer())),
            Err(_) => StepView::Abort,
        },
        TransactionsState::Sellers(left, lookup) => match user_step(lookup, reply) {
            UserStepView::Ask(lookup, request) => StepView::Ask(
                TransactionsState::Sellers(left, lookup),
                request,
            ),
            UserStepView::Found(_) => transactions_next(left),
        },
        TransactionsState::Commit => match reply.done() {
            Ok(_) => StepView::Answer(Ok(BodyView::Empty)),
            Err(_) => StepView::Abort,
        },
    }
}

/// Begins the answer to a request for the transactions of the user of the session.
pub fn get_transactions(uri: String) -> (step: Step<Transactions>)
    ensures
        step@ == transactions_start(uri@),
{
    Step::Ask(Transactions::Acquire(uri), Request::Acquire)
}

impl Transactions {
    /// Continues for the user with the given id, with the position that the URI of the
    /// request names: none where it is no URL.
    pub fn at_position(user_id: i64, position: Option<Result<Position, CustomError>>) -> (step:
        Step<Transactions>)
        ensures
            step@ == transactions_at(
                user_id,
                match position {
                    Some(p) => Some(by_view(p)),
                    None => None,
                },
            ),
    {
        match position {
            Some(Ok(position)) => Step::Ask(Transactions::Begin(user_id, position), Request::Begin),
            Some(Err(e)) => Step::Answer(Err(e)),
            None => Step::Abort,
        }
    }

    fn next(left: usize) -> (step: Step<Transactions>)
        ensures
            step@ == transactions_next(left as nat),
    {
        if left > 0 {
            let (lookup, request) = get_user(Via::Transaction);
            Step::Ask(Transactions::Sellers(left - 1, lookup), request)
        } else {
            Step::Ask(Transactions::Commit, Request::Commit)
        }
    }

    /// Continues with the reply to the last request.
    pub fn resume(self, reply: Reply) -> (step: Step<Transactions>)
        ensures
            step@ == transactions_step(self@, reply),
    {
        match self {
            Transactions::Acquire(uri) => match reply.done() {
                Ok(_) => {
                    let (lookup, request) = get_user(Via::Connection);
                    Step::Ask(Transactions::User(uri, lookup), request)
                },
                Err(_) => Step::Abort,
            },
            Transactions::User(uri, lookup) => match lookup.resume(reply) {
                UserStep::Ask(lookup, request) => {
                    Step::Ask(Transactions::User(uri, lookup), request)
                },
                UserStep::Found(Ok(user)) => {
                    Transactions::at_position(user.id, position_in_uri(uri.as_str()))
                },
                UserStep::Found(Err(e)) => Step::Answer(Err(e)),
            },
            Transactions::Begin(user_id, position) => match reply.done() {
                Ok(_) => match position.cursor() {
                    Some(cursor) => {
                        Step::Ask(Transactions::Rows, ask_transactions(user_id, cursor))
                    },
                    None => Step::Abort,
                },
                Err(_) => Step::Answer(Err(db_error())),
            },
            Transactions::Rows => match reply.items() {
                Ok(rows) => Transactions::next(rows.len()),
                Err(_) => Step::Ask(Transactions::Rollback, Request::Rollback),
            },
            Transactions::Rollback => match reply.done() {
                Ok(_) => Step::Answer(Err(db_error())),
                Err(_) => Step::Abort,
            },
            Transactions::Sellers(left, lookup) => match lookup.resume(reply) {
                UserStep::Ask(lookup, request) => {
                    Step::Ask(Transactions::Sellers(left, lookup), request)
                },
                UserStep::Found(_) => Transactions::next(left),
            },
            Transactions::Commit => match reply.done() {
                Ok(_) => Step::Answer(Ok(Body::Empty)),
                Err(_) => Step::Abort,
            },
        }
    }
}

} // verus!
