use isucari::category_items::{get_new_category_items, CategoryItems};
use isucari::datetime::{NaiveDateTime, PrimitiveDateTime};
use isucari::initialize::post_initialize;
use isucari::items::{get_new_items, NewItems};
use isucari::lookup::{
    config_value, get_category_by_id, get_config_by_name, get_payment_service_url,
    get_user_simple_by_id, payment_service_url,
};
use isucari::model::{Category, Config, Item, NewItemsQueryParams, ReqInitialize, ResNewItems, User};
use isucari::paging::Position;
use isucari::protocol::{Bind, Body, Failure, Query, Reply, Request, Step};
use isucari::reports::get_reports;
use isucari::settings::Settings;
use isucari::transactions::{get_transactions, Transactions};

fn moment(day: u8, second: u8) -> PrimitiveDateTime {
    PrimitiveDateTime::new(2019, 8, day, 12, 30, second, 0).unwrap()
}

fn civil(day: u8, second: u8) -> NaiveDateTime {
    NaiveDateTime { year: 2019, month: 8, day: day as u32, hour: 12, minute: 30, second: second as u32 }
}

/// A hundred items, the newest first; three share each time of creation.
fn table() -> Vec<(i64, u8, u8)> {
    (1..101).rev().map(|id: i64| (id, 1 + (id / 60) as u8, (id / 3 % 20) as u8)).collect()
}

fn item(id: i64, day: u8, second: u8) -> Item {
    Item {
        id,
        seller_id: 1,
        buyer_id: 0,
        status: "on_sale".to_string(),
        name: "".to_string(),
        price: 100,
        description: "".to_string(),
        image_name: "".to_string(),
        category_id: 1,
        created_at: moment(day, second),
        updated_at: moment(day, second),
    }
}

fn select(query: &Query) -> Vec<Item> {
    let key = |t: NaiveDateTime| (t.year, t.month, t.day, t.hour, t.minute, t.second);
    let mut rows = table();
    if query.binds.len() == 6 {
        match (&query.binds[2], &query.binds[4]) {
            (Bind::DateTime(at), Bind::Int(last)) => rows.retain(|(id, day, second)| {
                let t = key(civil(*day, *second));
                t < key(*at) || (t <= key(*at) && *id < *last)
            }),
            other => panic!("{:?}", other),
        }
    }
    rows.truncate(49);
    rows.into_iter().map(|(id, day, second)| item(id, day, second)).collect()
}

fn answer(request: Request) -> Reply {
    match request {
        Request::Items(query) => Reply::Items(Ok(select(&query))),
        Request::User(_) => Reply::User(Ok(User {
            id: 1,
            account_name: "".to_string(),
            hashed_password: vec![],
            address: "".to_string(),
            num_sell_items: 0,
            last_bump: moment(1, 0),
            created_at: moment(1, 0),
        })),
        Request::Category(_) => Reply::Category(Ok(Category::from_row(1, 0, "".to_string()))),
        other => panic!("{:?}", other),
    }
}

fn page(item_id: Option<i64>, created_at: Option<i64>) -> ResNewItems {
    let mut step = get_new_items(NewItemsQueryParams { item_id, created_at });
    loop {
        step = match step {
            Step::Ask(state, request) => NewItems::resume(state, answer(request)),
            Step::Answer(Ok(Body::NewItems(page))) => return page,
            other => panic!("{:?}", other),
        };
    }
}

#[test]
fn pages_continue_without_gap_or_repetition() {
    let first = page(None, None);
    assert!(first.has_next);
    let last = &first.items[47];
    let second = page(Some(last.id), Some(last.created_at));
    assert!(second.has_next);
    let last = &second.items[47];
    let third = page(Some(last.id), Some(last.created_at));
    assert!(!third.has_next);
    let ids: Vec<i64> = first
        .items
        .iter()
        .chain(second.items.iter())
        .chain(third.items.iter())
        .map(|item| item.id)
        .collect();
    assert_eq!(ids, (1..101).rev().collect::<Vec<i64>>());
}

fn check(request: &Request) {
    let query = match request {
        Request::Items(q)
        | Request::User(q)
        | Request::Category(q)
        | Request::CategoryIds(q)
        | Request::Categories(q)
        | Request::Config(q)
        | Request::Reports(q)
        | Request::Execute(q) => q,
        _ => return,
    };
    assert_eq!(query.sql.matches('?').count(), query.binds.len(), "{}", query.sql);
}

fn check_step<S>(step: Step<S>) {
    match step {
        Step::Ask(_, request) => check(&request),
        _ => panic!("no request"),
    }
}

#[test]
fn statements_have_one_placeholder_for_each_value() {
    let root = || Category::from_row(1, 0, "".to_string());
    let first = Position { item_id: 0, created_at: 0 };
    let next = Position { item_id: 1, created_at: 1 };
    for position in [first, next] {
        check_step(get_new_items(NewItemsQueryParams {
            item_id: Some(position.item_id),
            created_at: Some(position.created_at),
        }));
        check_step(CategoryItems::at_position(root(), &vec![1, 23], Some(Ok(position))));
        check_step(Transactions::Begin(1, position).resume(Reply::Done(Ok(()))));
    }
    check_step(get_reports());
    check(&get_user_simple_by_id(1));
    check(&get_category_by_id(1).1);
    check(&get_config_by_name("x"));
    check_step(Settings::Payment("".to_string(), None).resume(Reply::Config(Err(Failure::Other))));
    match post_initialize(ReqInitialize {
        payment_service_url: "a".to_string(),
        shipment_service_url: "b".to_string(),
    }) {
        Step::Ask(state, _) => check_step(state.resume(Reply::Done(Ok(())))),
        other => panic!("{:?}", other),
    }
}

#[test]
fn rolled_back_run_is_closed() {
    let user = match answer(get_user_simple_by_id(1)) {
        Reply::User(user) => user,
        other => panic!("{:?}", other),
    };
    let replies = vec![
        Reply::Done(Ok(())),
        Reply::SessionInteger(Ok(Some(1))),
        Reply::User(user),
        Reply::Done(Ok(())),
        Reply::Items(Err(Failure::Other)),
        Reply::Done(Ok(())),
    ];
    let mut begun = 0;
    let mut closed = 0;
    let mut step = get_transactions("http://h/?item_id=0&created_at=0".to_string());
    for reply in replies {
        step = match step {
            Step::Ask(state, request) => {
                match request {
                    Request::Begin => begun += 1,
                    Request::Commit => panic!("committed"),
                    Request::Rollback => closed += 1,
                    _ => {}
                }
                state.resume(reply)
            }
            other => panic!("{:?}", other),
        };
    }
    assert!(matches!(step, Step::Answer(Err(_))));
    assert_eq!((begun, closed), (1, 1));
}

/// The setting that a statement stores.
fn stored(query: Query) -> (Bind, String) {
    let mut binds = query.binds.into_iter();
    match (binds.next(), binds.next()) {
        (Some(name), Some(Bind::Text(val))) => (name, val),
        other => panic!("{:?}", other),
    }
}

/// Stores both addresses in a table of settings, where the last one under a name counts.
fn initialize(table: &mut Vec<(Bind, String)>, payment: &str, shipment: &str) {
    let mut step = post_initialize(ReqInitialize {
        payment_service_url: payment.to_string(),
        shipment_service_url: shipment.to_string(),
    });
    while let Step::Ask(state, request) = step {
        match request {
            Request::Execute(query) => {
                let (name, val) = stored(query);
                table.retain(|row| row.0 != name);
                table.push((name, val));
            }
            Request::Run(program) => assert_eq!(program, "../sql/init.sh"),
            other => panic!("{:?}", other),
        }
        step = state.resume(Reply::Done(Ok(())));
    }
    assert!(matches!(step, Step::Answer(Ok(_))));
}

#[test]
fn stored_addresses_are_read_under_their_names() {
    let mut table: Vec<(Bind, String)> = vec![];
    for (pay, ship) in [("http://pay", "http://ship"), ("http://ship", "http://new")] {
        initialize(&mut table, pay, ship);
        let read = |request: Request| match request {
            Request::Config(query) => {
                let row = table.iter().find(|row| row.0 == query.binds[0]).unwrap();
                Ok(Config { name: "".to_string(), val: row.1.clone() })
            }
            other => panic!("{:?}", other),
        };
        let payment = read(get_config_by_name("payment_service_url"));
        assert_eq!(config_value(payment), Ok(Some(pay.to_string())));
        let shipment = read(get_config_by_name("shipment_service_url"));
        assert_eq!(config_value(shipment), Ok(Some(ship.to_string())));
        assert_eq!(payment_service_url(read(get_payment_service_url())), pay);
    }
}

#[test]
fn lists_leave_columns_out() {
    let run = |reply: fn(Request) -> Reply| {
        let mut step = get_new_items(NewItemsQueryParams { item_id: None, created_at: None });
        while let Step::Ask(state, request) = step {
            step = state.resume(reply(request));
        }
        step
    };
    let plain = run(answer);
    let other = run(|request| match answer(request) {
        Reply::User(Ok(user)) => Reply::User(Ok(User {
            hashed_password: vec![1, 2],
            address: "street".to_string(),
            last_bump: moment(9, 9),
            created_at: moment(8, 8),
            ..user
        })),
        Reply::Items(Ok(rows)) => Reply::Items(Ok(rows
            .into_iter()
            .map(|row| Item {
                buyer_id: 77,
                description: "text".to_string(),
                updated_at: moment(7, 7),
                ..row
            })
            .collect())),
        reply => reply,
    });
    assert!(matches!(plain, Step::Answer(Ok(_))));
    assert_eq!(plain, other);
}

#[test]
fn transactions_only_read() {
    for rows in [Ok(vec![item(1, 1, 0), item(2, 1, 0)]), Err(Failure::Other)] {
        let mut rows = Some(rows);
        let mut step = get_transactions("http://h/?item_id=0&created_at=0".to_string());
        let mut requests = 0;
        while let Step::Ask(state, request) = step {
            requests += 1;
            let reply = match request {
                Request::SessionInteger(_) => Reply::SessionInteger(Ok(Some(1))),
                Request::Acquire | Request::Begin | Request::Commit | Request::Rollback => {
                    Reply::Done(Ok(()))
                }
                Request::Items(query) => {
                    assert!(query.sql.starts_with("SELECT "));
                    Reply::Items(rows.take().unwrap())
                }
                Request::User(query) => {
                    assert!(query.sql.starts_with("SELECT "));
                    answer(Request::User(query))
                }
                other => panic!("{:?}", other),
            };
            step = state.resume(reply);
        }
        assert!(requests > 5);
        assert!(matches!(step, Step::Answer(_)));
    }
}

#[test]
fn category_page_shows_the_rows_whatever_the_replies() {
    for n in [0, 1, 48, 49, 60] {
        let rows: Vec<i64> = (0..n).map(|i| 1000 - 7 * i).collect();
        let uri = "http://h/new_items/9.json?item_id=0&created_at=0";
        let mut step = get_new_category_items(9, uri.to_string());
        let mut queries = 0;
        let mut categories = 0;
        let body = loop {
            step = match step {
                Step::Ask(state, Request::Category(_)) => {
                    // The parent of the root category, and each reply another category.
                    let parent_id = if categories == 0 { 4 } else { 0 };
                    categories += 1;
                    let name = format!("name {}", categories);
                    state.resume(Reply::Category(Ok(Category::from_row(
                        20 + categories,
                        parent_id,
                        name,
                    ))))
                }
                Step::Ask(state, Request::CategoryIds(query)) => {
                    assert_eq!(query.binds, vec![Bind::UInt(21)]);
                    state.resume(Reply::CategoryIds(Ok(vec![5, 6])))
                }
                Step::Ask(state, Request::Items(_)) => {
                    queries += 1;
                    state.resume(Reply::Items(Ok(rows.iter().map(|id| item(*id, 1, 0)).collect())))
                }
                Step::Ask(state, request) => state.resume(answer(request)),
                Step::Answer(Ok(Body::NewItems(body))) => break body,
                other => panic!("{:?}", other),
            };
        };
        assert_eq!(queries, 1);
        assert_eq!(body.root_category_id, Some(21));
        assert_eq!(body.root_category_name, Some("name 1".to_string()));
        assert_eq!(body.has_next, n > 48);
        let shown: Vec<i64> = body.items.iter().map(|item| item.id).collect();
        let first: Vec<i64> = rows.iter().take(48).cloned().collect();
        assert_eq!(shown, first);
    }
}
