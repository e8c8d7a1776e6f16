//! Single things that handlers look up: users, categories, settings, the session.
use vstd::prelude::*;

use crate::error::{
    db_error, db_error_answer, error_answer, CustomError, ErrorView, StatusCode,
};
use crate::model::{Category, Config, User, UserSimple, DEFAULT_PAYMENT_SERVICE_URL};
use crate::protocol::{
    bind_views, Bind, BindView, Failure, Query, QueryView, Reply, Request, RequestView, Via,
};

verus! {

/// The request for the user with the given id.
pub open spec fn user_request(via: Via, user_id: i64) -> RequestView {
    RequestView::User(
        QueryView {
            via,
            sql: "SELECT * FROM `users` WHERE `id` = ?"@,
            binds: seq![BindView::Int(user_id as int)],
        },
    )
}

fn ask_user(via: Via, user_id: i64) -> (request: Request)
    ensures
        request@ == user_request(via, user_id),
{
    let binds = vec![Bind::Int(user_id)];
    assert(bind_views(binds@) =~= seq![BindView::Int(user_id as int)]);
    Request::User(Query::new(via, "SELECT * FROM `users` WHERE `id` = ?", binds))
}

/// Asks for a user, of whom `user_simple` then takes what other users see.
pub fn get_user_simple_by_id(user_id: i64) -> (request: Request)
    ensures
        request@ == user_request(Via::Pool, user_id),
{
    ask_user(Via::Pool, user_id)
}

/// What other users see of the user that was found.
#[verifier::allow_in_spec]
pub fn user_simple(row: Result<User, Failure>) -> Result<UserSimple, Failure>
    returns
        (match row {
            Ok(user) => Ok(UserSimple::of(user)),
            Err(e) => Err(e),
        }),
{
    match row {
        Ok(user) => Ok(UserSimple::of(user)),
        Err(e) => Err(e),
    }
}

/// The request for the category with the given id.
pub open spec fn category_request(category_id: u32) -> RequestView {
    RequestView::Category(
        QueryView {
            via: Via::Pool,
            sql: "SELECT * FROM `categories` WHERE `id` = ?"@,
            binds: seq![BindView::UInt(category_id as int)],
        },
    )
}

fn ask_category(category_id: u32) -> (request: Request)
    ensures
        request@ == category_request(category_id),
{
    let binds = vec![Bind::UInt(category_id)];
    assert(bind_views(binds@) =~= seq![BindView::UInt(category_id as int)]);
    Request::Category(Query::new(Via::Pool, "SELECT * FROM `categories` WHERE `id` = ?", binds))
}

/// A search for a category, its parent and all further ancestors.
#[derive(Debug, PartialEq, Eq)]
pub enum CategoryLookup {
    /// The category itself has been asked for.
    Own,
    /// The category has been found, and its parent has been asked for.
    Parent(Category),
    /// The category is complete, and a further ancestor has been asked for.
    Ancestor(Category),
}

/// What a search for a category does next.
#[derive(Debug, PartialEq, Eq)]
pub enum CategoryStep {
    Ask(CategoryLookup, Request),
    Found(Result<Category, Failure>),
}

/// The model of what a search for a category does next.
pub enum CategoryStepView {
    Ask(CategoryLookup, RequestView),
    Found(Result<Category, Failure>),
}

impl View for CategoryStep {
    type V = CategoryStepView;

    open spec fn view(&self) -> CategoryStepView {
        match *self {
            CategoryStep::Ask(lookup, request) => CategoryStepView::Ask(lookup, request@),
            CategoryStep::Found(r) => CategoryStepView::Found(r),
        }
    }
}

/// `category` with the name of its parent.
pub open spec fn with_parent_name(category: Category, name: Option<String>) -> Category {
    Category { parent_category_name: name, ..category }
}

/// How a search for a category continues with the row that was found, or not.
pub open spec fn category_step(
    lookup: CategoryLookup,
    row: Result<Category, Failure>,
) -> CategoryStepView {
    // What the search has come to, with `row` taken in.
    let found = match (lookup, row) {
        (CategoryLookup::Own, r) => r,
        (CategoryLookup::Parent(c), Ok(parent)) => Ok(
            with_parent_name(c, Some(parent.category_name)),
        ),
        (CategoryLookup::Parent(c), Err(_)) => Ok(with_parent_name(c, None)),
        (CategoryLookup::Ancestor(c), _) => Ok(c),
    };
    match row {
        // There is a further parent to look for.
        Ok(r) if r.parent_id != 0 => CategoryStepView::Ask(
            if lookup is Own {
                CategoryLookup::Parent(found->Ok_0)
            } else {
                CategoryLookup::Ancestor(found->Ok_0)
            },
            category_request(r.parent_id),
        ),
        _ => CategoryStepView::Found(found),
    }
}

/// Begins the search for a category.
pub fn get_category_by_id(category_id: u32) -> (start: (CategoryLookup, Request))
    ensures
        start.0 == CategoryLookup::Own,
        start.1@ == category_request(category_id),
{
    (CategoryLookup::Own, ask_category(category_id))
}

impl CategoryLookup {
    /// Continues the search with the row that was asked for.
    pub fn resume(self, row: Result<Category, Failure>) -> (step: CategoryStep)
        ensures
            step@ == category_step(self, row),
    {
        match self {
            CategoryLookup::Own => match row {
                Ok(category) => {
                    let parent_id = category.parent_id;
                    if parent_id != 0 {
                        CategoryStep::Ask(
                            CategoryLookup::Parent(category),
                            ask_category(parent_id),
                        )
                    } else {
                        CategoryStep::Found(Ok(category))
                    }
                },
                Err(e) => CategoryStep::Found(Err(e)),
            },
            CategoryLookup::Parent(category) => match row {
                Ok(parent) => {
                    let category = Category {
                        parent_category_name: Some(parent.category_name),
                        ..category
                    };
                    if parent.parent_id != 0 {
                        CategoryStep::Ask(
                            CategoryLookup::Ancestor(category),
                            ask_category(parent.parent_id),
                        )
                    } else {
                        CategoryStep::Found(Ok(category))
                    }
                },
                Err(_) => CategoryStep::Found(
                    Ok(Category { parent_category_name: None, ..category }),
                ),
            },
            CategoryLookup::Ancestor(category) => match row {
                Ok(ancestor) => if ancestor.parent_id != 0 {
                    CategoryStep::Ask(
                        CategoryLookup::Ancestor(category),
                        ask_category(ancestor.parent_id),
                    )
                } else {
                    CategoryStep::Found(Ok(category))
                },
                Err(_) => CategoryStep::Found(Ok(category)),
            },
        }
    }
}

/// A search for the user of the session.
#[derive(Clone, Copy, Debug, PartialEq, Eq, Structural)]
pub enum UserLookup {
    /// The session has been asked for the id of its user.
    Session(Via),
    /// The user has been asked for.
    Row,
}

/// What a search for the user of the session does next.
#[derive(Debug, PartialEq, Eq)]
pub enum UserStep {
    Ask(UserLookup, Request),
    Found(Result<User, CustomError>),
}

/// The model of what a search for the user of the session does next.
pub enum UserStepView {
    Ask(UserLookup, RequestView),
    Found(Result<User, ErrorView>),
}

impl View for UserStep {
    type V = UserStepView;

    open spec fn view(&self) -> UserStepView {
        match *self {
            UserStep::Ask(lookup, request) => UserStepView::Ask(lookup, request@),
            UserStep::Found(Ok(user)) => UserStepView::Found(Ok(user)),
            UserStep::Found(Err(e)) => UserStepView::Found(Err(e@)),
        }
    }
}

/// The request for the id of the user of the session.
pub open spec fn user_id_request() -> RequestView {
    RequestView::SessionInteger("user_id"@)
}

/// What the search comes to with the row of the user.
pub open spec fn user_found(row: Result<User, Failure>) -> Result<User, ErrorView> {
    match row {
        Ok(user) => Ok(user),
        Err(Failure::RowNotFound) => Err(error_answer(StatusCode::NotFound, "user not found"@)),
        Err(Failure::Other) => Err(db_error_answer()),
    }
}

/// How a search for the user of the session continues with a reply.
pub open spec fn user_step(lookup: UserLookup, reply: Reply) -> UserStepView {
    match lookup {
        UserLookup::Session(via) => match reply.session_integer() {
            Ok(Some(user_id)) => UserStepView::Ask(UserLookup::Row, user_request(via, user_id)),
            _ => UserStepView::Found(Err(error_answer(StatusCode::NotFound, "no session"@))),
        },
        UserLookup::Row => UserStepView::Found(user_found(reply.user())),
    }
}

/// Begins the search for the user of the session, through the given connection.
pub fn get_user(via: Via) -> (start: (UserLookup, Request))
    ensures
        start.0 == UserLookup::Session(via),
        start.1@ == user_id_request(),
{
    (UserLookup::Session(via), Request::SessionInteger("user_id".to_string()))
}

impl UserLookup {
    /// Continues the search with the reply to the last request.
    pub fn resume(self, reply: Reply) -> (step: UserStep)
        ensures
            step@ == user_step(self, reply),
    {
        match self {
            UserLookup::Session(via) => match reply.session_integer() {
                Ok(Some(user_id)) => UserStep::Ask(UserLookup::Row, ask_user(via, user_id)),
                _ => UserStep::Found(Err(CustomError::new(StatusCode::NotFound, "no session"))),
            },
            UserLookup::Row => match reply.user() {
                Ok(user) => UserStep::Found(Ok(user)),
                Err(Failure::RowNotFound) => UserStep::Found(
                    Err(CustomError::new(StatusCode::NotFound, "user not found")),
                ),
                Err(Failure::Other) => UserStep::Found(Err(db_error())),
            },
        }
    }
}

/// The request for the setting with the given name.
pub open spec fn config_request(name: Seq<char>) -> RequestView {
    RequestView::Config(
        QueryView {
            via: Via::Pool,
            sql: "SELECT * FROM `configs` WHERE `name` = ?"@,
            binds: seq![BindView::Text(name)],
        },
    )
}

/// Asks for the setting with the given name.
pub fn get_config_by_name(name: &str) -> (request: Request)
    ensures
        request@ == config_request(name@),
{
    let binds = vec![Bind::Text(name.to_string())];
    assert(bind_views(binds@) =~= seq![BindView::Text(name@)]);
    Request::Config(Query::new(Via::Pool, "SELECT * FROM `configs` WHERE `name` = ?", binds))
}

/// The value of the setting that was found; none where there is no such setting.
#[verifier::allow_in_spec]
pub fn config_value(row: Result<Config, Failure>) -> Result<Option<String>, Failure>
    returns
        (match row {
            Ok(config) => Ok(Some(config.val)),
            Err(Failure::RowNotFound) => Ok(None),
            Err(Failure::Other) => Err(Failure::Other),
        }),
{
    match row {
        Ok(config) => Ok(Some(config.val)),
        Err(e) => match e {
            Failure::RowNotFound => Ok(None),
            _ => Err(e),
        },
    }
}

/// Asks for the address of the payment service.
pub fn get_payment_service_url() -> (request: Request)
    ensures
        request@ == config_request("payment_service_url"@),
{
    get_config_by_name("payment_service_url")
}

/// The address of the payment service: the one that was set, else the default.
pub open spec fn payment_url(row: Result<Config, Failure>) -> Seq<char> {
    match row {
        Ok(config) => config.val@,
        Err(_) => DEFAULT_PAYMENT_SERVICE_URL@,
    }
}

/// The address of the payment service.
pub fn payment_service_url(row: Result<Config, Failure>) -> (url: String)
    ensures
        url@ == payment_url(row),
        row matches Ok(config) ==> url@ == config.val@,
        row is Err ==> url@ == "http://localhost:5555"@,
{
    match config_value(row) {
        Ok(Some(url)) => url,
        _ => DEFAULT_PAYMENT_SERVICE_URL.to_string(),
    }
}

/// Asks for the token of the session.
pub fn get_csrf_token() -> (request: Request)
    ensures
        request@ == RequestView::SessionText("csrf_token"@),
{
    Request::SessionText("csrf_token".to_string())
}

/// The token of a session: empty where it holds none.
pub open spec fn token_of(stored: Result<Option<String>, Failure>) -> Seq<char> {
    match stored {
        Ok(Some(token)) => token@,
        _ => ""@,
    }
}

/// The token of the session.
pub fn csrf_token(stored: Result<Option<String>, Failure>) -> (token: String)
    ensures
        token@ == token_of(stored),
        stored matches Ok(Some(text)) ==> token@ == text@,
        !(stored matches Ok(Some(_))) ==> token@ == ""@,
{
    match stored {
        Ok(Some(token)) => token,
        _ => "".to_string(),
    }
}

} // verus!
