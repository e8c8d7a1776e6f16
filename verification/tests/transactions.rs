use isucari::datetime::PrimitiveDateTime;
use isucari::error::{CustomError, StatusCode};
use isucari::lookup::UserLookup;
use isucari::model::{Item, User};
use isucari::paging::Position;
use isucari::protocol::{Bind, Body, Failure, Query, Reply, Request, Step, Via};
use isucari::transactions::{get_transactions, Transactions};

const URI: &str = "http://localhost/transactions.json?item_id=7&created_at=86400";

fn at() -> PrimitiveDateTime {
    PrimitiveDateTime::new(2019, 1, 1, 0, 0, 0, 0).unwrap()
}

fn user(id: i64) -> User {
    User {
        id,
        account_name: "name".to_string(),
        hashed_password: vec![],
        address: "".to_string(),
        num_sell_items: 0,
        last_bump: at(),
        created_at: at(),
    }
}

fn item(id: i64) -> Item {
    Item {
        id,
        seller_id: 1,
        buyer_id: 2,
        status: "trading".to_string(),
        name: "".to_string(),
        price: 100,
        description: "".to_string(),
        image_name: "".to_string(),
        category_id: 1,
        created_at: at(),
        updated_at: at(),
    }
}

fn error(status: StatusCode, message: &str) -> Step<Transactions> {
    Step::Answer(Err(CustomError::new(status, message)))
}

fn user_state(uri: &str) -> Transactions {
    Transactions::User(uri.to_string(), UserLookup::Row)
}

fn begin_state(created_at: i64) -> Transactions {
    Transactions::Begin(5, Position { item_id: 7, created_at })
}

/// The requests of a run with the given replies, and what comes of it.
fn run(uri: &str, replies: Vec<Reply>) -> (Vec<Request>, Step<Transactions>) {
    let mut requests = vec![];
    let mut step = get_transactions(uri.to_string());
    for reply in replies {
        step = match step {
            Step::Ask(state, request) => {
                requests.push(request);
                state.resume(reply)
            }
            end => end,
        };
    }
    (requests, step)
}

#[test]
fn committed_run() {
    let (requests, end) = run(
        URI,
        vec![
            Reply::Done(Ok(())),
            Reply::SessionInteger(Ok(Some(5))),
            Reply::User(Ok(user(5))),
            Reply::Done(Ok(())),
            Reply::Items(Ok(vec![item(1), item(2)])),
            Reply::SessionInteger(Ok(Some(5))),
            Reply::User(Ok(user(5))),
            Reply::SessionInteger(Ok(Some(5))),
            Reply::User(Err(Failure::Other)),
            Reply::Done(Ok(())),
        ],
    );
    assert_eq!(end, Step::Answer(Ok(Body::Empty)));
    assert_eq!(requests.len(), 10);
    assert_eq!(requests[0], Request::Acquire);
    assert_eq!(requests[1], Request::SessionInteger("user_id".to_string()));
    assert_eq!(
        requests[2],
        Request::User(Query {
            via: Via::Connection,
            sql: "SELECT * FROM `users` WHERE `id` = ?".to_string(),
            binds: vec![Bind::Int(5)],
        })
    );
    assert_eq!(requests[3], Request::Begin);
    match &requests[4] {
        Request::Items(query) => {
            assert_eq!(query.via, Via::Transaction);
            assert_eq!(query.sql, "SELECT * FROM `items` WHERE (`seller_id` = ? OR `buyer_id` = ?) AND `status` IN (?,?,?,?,?) AND (`created_at` < ?  OR (`created_at` <= ? AND `id` < ?)) ORDER BY `created_at` DESC, `id` DESC LIMIT ?");
            assert_eq!(query.binds.len(), 11);
            assert_eq!(query.binds[0], Bind::Int(5));
            assert_eq!(query.binds[1], Bind::Int(5));
            assert_eq!(query.binds[5], Bind::Text("cancel".to_string()));
            assert_eq!(query.binds[6], Bind::Text("stop".to_string()));
            assert_eq!(query.binds[9], Bind::Int(7));
            assert_eq!(query.binds[10], Bind::UInt(11));
        }
        other => panic!("{:?}", other),
    }
    match &requests[6] {
        Request::User(query) => assert_eq!(query.via, Via::Transaction),
        other => panic!("{:?}", other),
    }
    assert_eq!(requests[9], Request::Commit);
}

#[test]
fn first_page_of_transactions() {
    match begin_state(0).resume(Reply::Done(Ok(()))) {
        Step::Ask(Transactions::Rows, request) => assert_eq!(
            request,
            Request::Items(Query {
                via: Via::Transaction,
                sql: "SELECT * FROM `items` WHERE (`seller_id` = ? OR `buyer_id` = ?) AND `status` IN (?,?,?,?,?) ORDER BY `created_at` DESC, `id` DESC LIMIT ?".to_string(),
                binds: vec![
                    Bind::Int(5),
                    Bind::Int(5),
                    Bind::Text("on_sale".to_string()),
                    Bind::Text("trading".to_string()),
                    Bind::Text("sold_out".to_string()),
                    Bind::Text("cancel".to_string()),
                    Bind::Text("stop".to_string()),
                    Bind::UInt(11),
                ],
            })
        ),
        other => panic!("{:?}", other),
    }
}

#[test]
fn errors_of_the_session_user() {
    let acquired = Reply::Done(Ok(()));
    let (_, end) = run(URI, vec![acquired, Reply::SessionInteger(Ok(None))]);
    assert_eq!(end, error(StatusCode::NotFound, "no session"));
    let (_, end) = run(
        URI,
        vec![Reply::Done(Ok(())), Reply::SessionInteger(Err(Failure::Other))],
    );
    assert_eq!(end, error(StatusCode::NotFound, "no session"));
    assert_eq!(
        user_state(URI).resume(Reply::User(Err(Failure::RowNotFound))),
        error(StatusCode::NotFound, "user not found")
    );
    assert_eq!(
        user_state(URI).resume(Reply::User(Err(Failure::Other))),
        error(StatusCode::InternalServerError, "db error")
    );
}

#[test]
fn position_of_transactions() {
    assert_eq!(
        user_state(URI).resume(Reply::User(Ok(user(5)))),
        Step::Ask(begin_state(86_400), Request::Begin)
    );
    assert_eq!(
        user_state("http://h/?item_id=x&created_at=1").resume(Reply::User(Ok(user(5)))),
        error(StatusCode::InternalServerError, "item_id param error")
    );
    assert_eq!(
        user_state("http://h/?item_id=1").resume(Reply::User(Ok(user(5)))),
        error(StatusCode::InternalServerError, "created_at param error")
    );
    assert_eq!(user_state("/x").resume(Reply::User(Ok(user(5)))), Step::Abort);
    assert_eq!(Transactions::at_position(5, None), Step::Abort);
}

#[test]
fn failed_begin_is_a_db_error() {
    assert_eq!(
        begin_state(1).resume(Reply::Done(Err(Failure::Other))),
        error(StatusCode::InternalServerError, "db error")
    );
    assert_eq!(begin_state(i64::MAX).resume(Reply::Done(Ok(()))), Step::Abort);
}

#[test]
fn failed_rows_are_rolled_back() {
    assert_eq!(
        Transactions::Rows.resume(Reply::Items(Err(Failure::Other))),
        Step::Ask(Transactions::Rollback, Request::Rollback)
    );
    assert_eq!(
        Transactions::Rollback.resume(Reply::Done(Ok(()))),
        error(StatusCode::InternalServerError, "db error")
    );
}

#[test]
fn no_rows_are_committed_at_once() {
    assert_eq!(
        Transactions::Rows.resume(Reply::Items(Ok(vec![]))),
        Step::Ask(Transactions::Commit, Request::Commit)
    );
}

#[test]
fn failed_connection_commit_and_rollback_abort() {
    let failed = || Reply::Done(Err(Failure::Other));
    assert_eq!(Transactions::Acquire(URI.to_string()).resume(failed()), Step::Abort);
    assert_eq!(Transactions::Commit.resume(failed()), Step::Abort);
    assert_eq!(Transactions::Rollback.resume(failed()), Step::Abort);
}
