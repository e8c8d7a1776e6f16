use isucari::category_items::{get_new_category_items, CategoryItems};
use isucari::datetime::{NaiveDateTime, PrimitiveDateTime};
use isucari::error::{CustomError, StatusCode};
use isucari::model::{Category, Item, User};
use isucari::paging::Position;
use isucari::protocol::{Bind, Body, Failure, Query, Reply, Request, Step, Via};
use isucari::text::join_numbers;

const URI: &str = "http://localhost/new_items/1.json?item_id=0&created_at=0";

fn root() -> Category {
    Category::from_row(1, 0, "root".to_string())
}

fn error(status: StatusCode, message: &str) -> Step<CategoryItems> {
    Step::Answer(Err(CustomError::new(status, message)))
}

fn ids_state(uri: &str) -> CategoryItems {
    CategoryItems::Ids(uri.to_string(), root())
}

#[test]
fn numbers_are_joined_with_commas() {
    assert_eq!(join_numbers(&vec![]), "");
    assert_eq!(join_numbers(&vec![0]), "0");
    assert_eq!(join_numbers(&vec![10, 4_294_967_295, 7]), "10,4294967295,7");
}

#[test]
fn root_category_comes_first() {
    match get_new_category_items(1, URI.to_string()) {
        Step::Ask(CategoryItems::Root(_, _), Request::Category(query)) => {
            assert_eq!(query.binds, vec![Bind::UInt(1)]);
        }
        other => panic!("{:?}", other),
    }
}

#[test]
fn missing_root_category_is_a_bad_request() {
    match get_new_category_items(1, "no url".to_string()) {
        Step::Ask(state, _) => assert_eq!(
            state.resume(Reply::Category(Err(Failure::RowNotFound))),
            error(StatusCode::BadRequest, "category not found")
        ),
        other => panic!("{:?}", other),
    }
}

#[test]
fn ids_of_the_root_category() {
    match get_new_category_items(1, URI.to_string()) {
        Step::Ask(state, _) => match state.resume(Reply::Category(Ok(root()))) {
            Step::Ask(CategoryItems::Ids(_, category), request) => {
                assert_eq!(category, root());
                assert_eq!(
                    request,
                    Request::CategoryIds(Query {
                        via: Via::Pool,
                        sql: "SELECT id FROM `categories` WHERE parent_id=?".to_string(),
                        binds: vec![Bind::UInt(1)],
                    })
                );
            }
            other => panic!("{:?}", other),
        },
        other => panic!("{:?}", other),
    }
}

#[test]
fn failed_ids_are_a_db_error() {
    assert_eq!(
        ids_state("no url").resume(Reply::CategoryIds(Err(Failure::Other))),
        error(StatusCode::InternalServerError, "db error")
    );
}

#[test]
fn first_page_of_categories() {
    match ids_state(URI).resume(Reply::CategoryIds(Ok(vec![2, 3]))) {
        Step::Ask(CategoryItems::Rows(_), request) => assert_eq!(
            request,
            Request::Items(Query {
                via: Via::Pool,
                sql: "SELECT * FROM `items` WHERE `status` IN (?,?) AND category_id IN (2,3) ORDER BY created_at DESC, id DESC LIMIT ?".to_string(),
                binds: vec![
                    Bind::Text("on_sale".to_string()),
                    Bind::Text("sold_out".to_string()),
                    Bind::UInt(49),
                ],
            })
        ),
        other => panic!("{:?}", other),
    }
}

#[test]
fn next_page_of_categories() {
    let position = Position { item_id: 9, created_at: 86_400 };
    let at = NaiveDateTime { year: 1970, month: 1, day: 2, hour: 0, minute: 0, second: 0 };
    match CategoryItems::at_position(root(), &vec![2, 3], Some(Ok(position))) {
        Step::Ask(CategoryItems::Rows(_), request) => assert_eq!(
            request,
            Request::Items(Query {
                via: Via::Pool,
                sql: "SELECT * FROM `items` WHERE `status` IN (?,?) AND category_id IN (2,3) AND (`created_at` < ?  OR (`created_at` <= ? AND `id` < ?)) ORDER BY `created_at` DESC, `id` DESC LIMIT ?".to_string(),
                binds: vec![
                    Bind::Text("on_sale".to_string()),
                    Bind::Text("sold_out".to_string()),
                    Bind::DateTime(at),
                    Bind::DateTime(at),
                    Bind::Int(9),
                    Bind::UInt(49),
                ],
            })
        ),
        other => panic!("{:?}", other),
    }
}

#[test]
fn errors_of_the_position() {
    assert_eq!(
        ids_state("http://h/?created_at=1").resume(Reply::CategoryIds(Ok(vec![]))),
        error(StatusCode::InternalServerError, "item_id param error")
    );
    assert_eq!(
        ids_state("http://h/?item_id=1").resume(Reply::CategoryIds(Ok(vec![]))),
        error(StatusCode::InternalServerError, "created_at param error")
    );
}

#[test]
fn aborted_requests() {
    assert_eq!(
        ids_state("/new_items/1.json").resume(Reply::CategoryIds(Ok(vec![2]))),
        Step::Abort
    );
    let uri = "http://h/?item_id=1&created_at=8210266876800";
    assert_eq!(ids_state(uri).resume(Reply::CategoryIds(Ok(vec![2]))), Step::Abort);
}

#[test]
fn failed_category_rows_are_a_db_error() {
    assert_eq!(
        CategoryItems::Rows(root()).resume(Reply::Items(Err(Failure::Other))),
        error(StatusCode::InternalServerError, "db error")
    );
}

#[test]
fn page_names_its_root_category() {
    match CategoryItems::Rows(root()).resume(Reply::Items(Ok(vec![]))) {
        Step::Answer(Ok(Body::NewItems(page))) => {
            assert_eq!(page.root_category_id, Some(1));
            assert_eq!(page.root_category_name, Some("root".to_string()));
            assert!(!page.has_next);
            assert!(page.items.is_empty());
        }
        other => panic!("{:?}", other),
    }
}

#[test]
fn page_of_one_item() {
    let at = PrimitiveDateTime::new(2019, 1, 1, 0, 0, 0, 0).unwrap();
    let row = Item {
        id: 1,
        seller_id: 2,
        buyer_id: 0,
        status: "sold_out".to_string(),
        name: "chair".to_string(),
        price: 300,
        description: "".to_string(),
        image_name: "c.png".to_string(),
        category_id: 5,
        created_at: at,
        updated_at: at,
    };
    let seller = User {
        id: 2,
        account_name: "seller".to_string(),
        hashed_password: vec![],
        address: "".to_string(),
        num_sell_items: 1,
        last_bump: at,
        created_at: at,
    };
    let mut replies = vec![
        Reply::Category(Ok(root())),
        Reply::Category(Ok(Category::from_row(5, 1, "chairs".to_string()))),
        Reply::User(Ok(seller)),
    ];
    let mut step = CategoryItems::Rows(root()).resume(Reply::Items(Ok(vec![row])));
    loop {
        step = match step {
            Step::Ask(state, _) => state.resume(replies.pop().unwrap()),
            Step::Answer(Ok(Body::NewItems(page))) => {
                assert_eq!(page.root_category_name, Some("root".to_string()));
                assert_eq!(page.items.len(), 1);
                assert_eq!(page.items[0].name, "chair");
                assert_eq!(page.items[0].image_url, "/upload/c.png");
                assert_eq!(
                    page.items[0].category.parent_category_name,
                    Some("root".to_string())
                );
                break;
            }
            other => panic!("{:?}", other),
        };
    }
    assert!(replies.is_empty());
}
