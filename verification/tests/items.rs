use isucari::datetime::{NaiveDateTime, PrimitiveDateTime};
use isucari::error::{CustomError, StatusCode};
use isucari::items::{get_image_url, get_new_items, NewItems};
use isucari::model::{Category, Item, NewItemsQueryParams, ResNewItems, User, UserSimple};
use isucari::protocol::{Bind, Body, Failure, Query, Reply, Request, Step, Via};

const USER_SQL: &str = "SELECT * FROM `users` WHERE `id` = ?";
const CATEGORY_SQL: &str = "SELECT * FROM `categories` WHERE `id` = ?";

fn moment(year: i32, month: u8, day: u8) -> PrimitiveDateTime {
    PrimitiveDateTime::new(year, month, day, 0, 0, 0, 0).unwrap()
}

fn item(id: i64, seller_id: i64, category_id: u32) -> Item {
    Item {
        id,
        seller_id,
        buyer_id: 0,
        status: "on_sale".to_string(),
        name: format!("item {}", id),
        price: 100,
        description: "text".to_string(),
        image_name: format!("{}.jpg", id),
        category_id,
        created_at: moment(2019, 1, 1),
        updated_at: moment(2019, 1, 2),
    }
}

fn user(id: i64) -> User {
    User {
        id,
        account_name: format!("user {}", id),
        hashed_password: vec![1, 2, 3],
        address: "street".to_string(),
        num_sell_items: 7,
        last_bump: moment(2019, 1, 1),
        created_at: moment(2019, 1, 1),
    }
}

fn category(id: u32, parent_id: u32) -> Category {
    Category::from_row(id, parent_id, format!("category {}", id))
}

fn user_query(id: i64) -> Query {
    Query {
        via: Via::Pool,
        sql: USER_SQL.to_string(),
        binds: vec![Bind::Int(id)],
    }
}

fn category_query(id: u32) -> Query {
    Query {
        via: Via::Pool,
        sql: CATEGORY_SQL.to_string(),
        binds: vec![Bind::UInt(id)],
    }
}

/// Users 1 to 9 exist; category 10 is below 1, 20 below 10, 30 below 99, which is missing.
fn answer(request: &Request, rows: &mut Option<Vec<Item>>) -> Reply {
    match request {
        Request::Items(_) => Reply::Items(Ok(rows.take().unwrap())),
        Request::User(query) => {
            for id in 1..10 {
                if *query == user_query(id) {
                    return Reply::User(Ok(user(id)));
                }
            }
            Reply::User(Err(Failure::RowNotFound))
        }
        Request::Category(query) => {
            for (id, parent) in [(1, 0), (10, 1), (20, 10), (30, 99)] {
                if *query == category_query(id) {
                    return Reply::Category(Ok(category(id, parent)));
                }
            }
            Reply::Category(Err(Failure::RowNotFound))
        }
        _ => panic!("unexpected request"),
    }
}

fn run(rows: Vec<Item>) -> (Result<Body, CustomError>, usize) {
    let mut rows = Some(rows);
    let mut asked = 0;
    let mut step = get_new_items(NewItemsQueryParams { item_id: None, created_at: None });
    loop {
        step = match step {
            Step::Ask(state, request) => {
                asked += 1;
                let reply = answer(&request, &mut rows);
                NewItems::resume(state, reply)
            }
            Step::Answer(answer) => return (answer, asked),
            Step::Abort => panic!("no answer"),
        };
    }
}

fn page(rows: Vec<Item>) -> ResNewItems {
    match run(rows).0 {
        Ok(Body::NewItems(page)) => page,
        other => panic!("no page: {:?}", other),
    }
}

#[test]
fn image_url_has_upload_prefix() {
    assert_eq!(get_image_url("a.jpg"), "/upload/a.jpg");
    assert_eq!(get_image_url(""), "/upload/");
}

#[test]
fn first_page_request() {
    let expected = Request::Items(Query {
        via: Via::Pool,
        sql: "SELECT * FROM `items` WHERE `status` IN (?,?) ORDER BY `created_at` DESC, `id` DESC LIMIT ?".to_string(),
        binds: vec![
            Bind::Text("on_sale".to_string()),
            Bind::Text("sold_out".to_string()),
            Bind::UInt(49),
        ],
    });
    for (item_id, created_at) in [
        (None, None),
        (Some(5), None),
        (None, Some(5)),
        (Some(0), Some(5)),
        (Some(5), Some(0)),
        (Some(-1), Some(5)),
        (Some(5), Some(-1)),
    ] {
        match get_new_items(NewItemsQueryParams { item_id, created_at }) {
            Step::Ask(NewItems::Rows, request) => assert_eq!(request, expected),
            _ => panic!("no request"),
        }
    }
}

#[test]
fn paging_request() {
    let params = NewItemsQueryParams { item_id: Some(42), created_at: Some(1_546_300_800) };
    let at = NaiveDateTime { year: 2019, month: 1, day: 1, hour: 0, minute: 0, second: 0 };
    match get_new_items(params) {
        Step::Ask(NewItems::Rows, request) => assert_eq!(
            request,
            Request::Items(Query {
                via: Via::Pool,
                sql: "SELECT * FROM `items` WHERE `status` IN (?,?) AND (`created_at` < ?  OR (`created_at` <= ? AND `id` < ?)) ORDER BY `created_at` DESC, `id` DESC LIMIT ?".to_string(),
                binds: vec![
                    Bind::Text("on_sale".to_string()),
                    Bind::Text("sold_out".to_string()),
                    Bind::DateTime(at),
                    Bind::DateTime(at),
                    Bind::Int(42),
                    Bind::UInt(49),
                ],
            })
        ),
        _ => panic!("no request"),
    }
}

#[test]
fn time_beyond_the_range_of_dates_aborts() {
    let beyond = NewItemsQueryParams { item_id: Some(1), created_at: Some(8_210_266_876_800) };
    assert_eq!(get_new_items(beyond), Step::Abort);
    let last = NewItemsQueryParams { item_id: Some(1), created_at: Some(8_210_266_876_799) };
    assert!(matches!(get_new_items(last), Step::Ask(NewItems::Rows, _)));
    let unused = NewItemsQueryParams { item_id: Some(0), created_at: Some(i64::MAX) };
    assert!(matches!(get_new_items(unused), Step::Ask(NewItems::Rows, _)));
}

#[test]
fn empty_list() {
    let page = page(vec![]);
    assert_eq!(
        page,
        ResNewItems { root_category_id: None, root_category_name: None, has_next: false, items: vec![] }
    );
}

#[test]
fn item_is_shown_with_seller_and_category() {
    let page = page(vec![item(3, 4, 10)]);
    assert!(!page.has_next);
    assert_eq!(page.items.len(), 1);
    let shown = &page.items[0];
    assert_eq!(shown.id, 3);
    assert_eq!(shown.seller_id, 4);
    assert_eq!(
        shown.seller,
        UserSimple { id: 4, account_name: "user 4".to_string(), num_sell_items: 7 }
    );
    assert_eq!(shown.status, "on_sale");
    assert_eq!(shown.name, "item 3");
    assert_eq!(shown.price, 100);
    assert_eq!(shown.image_url, "/upload/3.jpg");
    assert_eq!(shown.category_id, 10);
    assert_eq!(
        shown.category,
        Category {
            id: 10,
            parent_id: 1,
            category_name: "category 10".to_string(),
            parent_category_name: Some("category 1".to_string()),
        }
    );
    assert_eq!(shown.created_at, 1_546_300_800);
}

#[test]
fn page_limit_is_exact() {
    let full = page((1..49).map(|id| item(id, 1, 1)).collect());
    assert!(!full.has_next);
    assert_eq!(full.items.len(), 48);

    let more = page((1..50).map(|id| item(id, 1, 1)).collect());
    assert!(more.has_next);
    let ids: Vec<i64> = more.items.iter().map(|i| i.id).collect();
    assert_eq!(ids, (1..49).collect::<Vec<i64>>());
}

#[test]
fn first_missing_seller_decides() {
    let rows = vec![item(1, 1, 1), item(2, 77, 1), item(3, 1, 77)];
    let (answer, asked) = run(rows);
    assert_eq!(answer, Err(CustomError::new(StatusCode::NotFound, "seller not found")));
    assert_eq!(asked, 4);
}

#[test]
fn first_missing_category_decides() {
    let rows = vec![item(1, 1, 77), item(2, 77, 1)];
    let (answer, asked) = run(rows);
    assert_eq!(answer, Err(CustomError::new(StatusCode::NotFound, "category not found")));
    assert_eq!(asked, 3);
}

#[test]
fn row_beyond_the_page_is_looked_up_too() {
    let mut rows: Vec<Item> = (1..49).map(|id| item(id, 1, 1)).collect();
    rows.push(item(49, 77, 1));
    assert_eq!(run(rows).0, Err(CustomError::new(StatusCode::NotFound, "seller not found")));
}

#[test]
fn ancestors_of_a_category() {
    let page = page(vec![item(1, 1, 1), item(2, 1, 20), item(3, 1, 30)]);
    assert_eq!(page.items[0].category.parent_category_name, None);
    assert_eq!(page.items[1].category.parent_category_name, Some("category 10".to_string()));
    assert_eq!(page.items[2].category.parent_category_name, None);
    let (_, asked) = run(vec![item(2, 1, 20)]);
    // The rows, the seller, and the categories 20, 10 and 1.
    assert_eq!(asked, 5);
}

#[test]
fn failed_rows_are_a_db_error() {
    let error = Err(CustomError::new(StatusCode::InternalServerError, "db error"));
    assert_eq!(
        NewItems::Rows.resume(Reply::Items(Err(Failure::Other))),
        Step::Answer(error)
    );
}

#[test]
fn reply_of_another_kind_is_a_failure() {
    let error = Err(CustomError::new(StatusCode::InternalServerError, "db error"));
    assert_eq!(NewItems::Rows.resume(Reply::Done(Ok(()))), Step::Answer(error));
}

#[test]
fn shown_time_leads_to_the_next_page() {
    let mut row = item(3, 1, 1);
    row.created_at = PrimitiveDateTime::new(2019, 8, 31, 23, 59, 58, 0).unwrap();
    let shown = page(vec![row]);
    let params = NewItemsQueryParams {
        item_id: Some(shown.items[0].id),
        created_at: Some(shown.items[0].created_at),
    };
    let at = NaiveDateTime { year: 2019, month: 8, day: 31, hour: 23, minute: 59, second: 58 };
    match get_new_items(params) {
        Step::Ask(_, Request::Items(query)) => {
            assert_eq!(query.binds[2], Bind::DateTime(at));
            assert_eq!(query.binds[4], Bind::Int(3));
        }
        _ => panic!("no request"),
    }
}
