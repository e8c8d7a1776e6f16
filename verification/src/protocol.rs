//! How the decisions of the service talk to the world: a handler asks for one
//! operation at a time and continues with the reply.
use vstd::prelude::*;

use crate::datetime::{Civil, NaiveDateTime};
use crate::error::{CustomError, ErrorView};
use crate::model::{
    evidence_views, Category, Config, Item, NewItemsView, ResInitialize, ResNewItems, ResSetting,
    SettingView, ShownEvidence, ShownEvidenceView, TransactionEvidence, User,
};

verus! {

/// The connection that an operation of the database goes through.
#[derive(Clone, Copy, Debug, PartialEq, Eq, Structural)]
pub enum Via {
    /// Any connection of the pool.
    Pool,
    /// The connection that the handler has acquired.
    Connection,
    /// The transaction that the handler has begun.
    Transaction,
}

/// A value for a placeholder of a statement.
#[derive(Debug, PartialEq, Eq)]
pub enum Bind {
    Text(String),
    Int(i64),
    UInt(u32),
    DateTime(NaiveDateTime),
}

/// A statement of SQL, with the values for its placeholders in order.
#[derive(Debug, PartialEq, Eq)]
pub struct Query {
    pub via: Via,
    pub sql: String,
    pub binds: Vec<Bind>,
}

/// An operation that a handler asks for.
#[derive(Debug, PartialEq, Eq)]
pub enum Request {
    /// Take a connection from the pool.
    Acquire,
    /// Begin a transaction.
    Begin,
    /// Commit the transaction.
    Commit,
    /// Roll the transaction back.
    Rollback,
    /// Run a program and show what it prints.
    Run(String),
    /// Read a number from the session.
    SessionInteger(String),
    /// Read a text from the session.
    SessionText(String),
    /// Fetch all rows of items.
    Items(Query),
    /// Fetch one user.
    User(Query),
    /// Fetch one category.
    Category(Query),
    /// Fetch the ids of all selected categories.
    CategoryIds(Query),
    /// Fetch all selected categories.
    Categories(Query),
    /// Fetch one setting.
    Config(Query),
    /// Fetch all selected transaction evidences.
    Reports(Query),
    /// Execute a statement without a result.
    Execute(Query),
}

/// Why an operation failed.
#[derive(Clone, Copy, Debug, PartialEq, Eq, Structural)]
pub enum Failure {
    /// A query for one row found none.
    RowNotFound,
    /// Anything else.
    Other,
}

/// The result of an operation.
#[derive(Debug, PartialEq, Eq)]
pub enum Reply {
    /// To `Acquire`, `Begin`, `Commit`, `Rollback`, `Run` and `Execute`.
    Done(Result<(), Failure>),
    SessionInteger(Result<Option<i64>, Failure>),
    SessionText(Result<Option<String>, Failure>),
    Items(Result<Vec<Item>, Failure>),
    User(Result<User, Failure>),
    Category(Result<Category, Failure>),
    CategoryIds(Result<Vec<u32>, Failure>),
    Categories(Result<Vec<Category>, Failure>),
    Config(Result<Config, Failure>),
    Reports(Result<Vec<TransactionEvidence>, Failure>),
}

/// A reply of another kind than the one asked for counts as a failed operation.
impl Reply {
    #[verifier::allow_in_spec]
    pub fn done(self) -> Result<(), Failure>
        returns
            (match self {
                Reply::Done(r) => r,
                _ => Err(Failure::Other),
            }),
    {
        match self {
            Reply::Done(r) => r,
            _ => Err(Failure::Other),
        }
    }

    #[verifier::allow_in_spec]
    pub fn session_integer(self) -> Result<Option<i64>, Failure>
        returns
            (match self {
                Reply::SessionInteger(r) => r,
                _ => Err(Failure::Other),
            }),
    {
        match self {
            Reply::SessionInteger(r) => r,
            _ => Err(Failure::Other),
        }
    }

    #[verifier::allow_in_spec]
    pub fn session_text(self) -> Result<Option<String>, Failure>
        returns
            (match self {
                Reply::SessionText(r) => r,
                _ => Err(Failure::Other),
            }),
    {
        match self {
            Reply::SessionText(r) => r,
            _ => Err(Failure::Other),
        }
    }

    #[verifier::allow_in_spec]
    pub fn items(self) -> Result<Vec<Item>, Failure>
        returns
            (match self {
                Reply::Items(r) => r,
                _ => Err(Failure::Other),
            }),
    {
        match self {
            Reply::Items(r) => r,
            _ => Err(Failure::Other),
        }
    }

    #[verifier::allow_in_spec]
    pub fn user(self) -> Result<User, Failure>
        returns
            (match self {
                Reply::User(r) => r,
                _ => Err(Failure::Other),
            }),
    {
        match self {
            Reply::User(r) => r,
            _ => Err(Failure::Other),
        }
    }

    #[verifier::allow_in_spec]
    pub fn category(self) -> Result<Category, Failure>
        returns
            (match self {
                Reply::Category(r) => r,
                _ => Err(Failure::Other),
            }),
    {
        match self {
            Reply::Category(r) => r,
            _ => Err(Failure::Other),
        }
    }

    #[verifier::allow_in_spec]
    pub fn category_ids(self) -> Result<Vec<u32>, Failure>
        returns
            (match self {
                Reply::CategoryIds(r) => r,
                _ => Err(Failure::Other),
            }),
    {
        match self {
            Reply::CategoryIds(r) => r,
            _ => Err(Failure::Other),
        }
    }

    #[verifier::allow_in_spec]
    pub fn categories(self) -> Result<Vec<Category>, Failure>
        returns
            (match self {
                Reply::Categories(r) => r,
                _ => Err(Failure::Other),
            }),
    {
        match self {
            Reply::Categories(r) => r,
            _ => Err(Failure::Other),
        }
    }

    #[verifier::allow_in_spec]
    pub fn config(self) -> Result<Config, Failure>
        returns
            (match self {
                Reply::Config(r) => r,
                _ => Err(Failure::Other),
            }),
    {
        match self {
            Reply::Config(r) => r,
            _ => Err(Failure::Other),
        }
    }

    #[verifier::allow_in_spec]
    pub fn reports(self) -> Result<Vec<TransactionEvidence>, Failure>
        returns
            (match self {
                Reply::Reports(r) => r,
                _ => Err(Failure::Other),
            }),
    {
        match self {
            Reply::Reports(r) => r,
            _ => Err(Failure::Other),
        }
    }
}

/// The body of a successful answer.
#[derive(Debug, PartialEq, Eq)]
pub enum Body {
    NewItems(ResNewItems),
    Reports(Vec<ShownEvidence>),
    Initialize(ResInitialize),
    Settings(ResSetting),
    Empty,
}

/// What a handler does next.
#[derive(Debug, PartialEq, Eq)]
pub enum Step<S> {
    /// It asks for an operation, and continues from the state with the reply.
    Ask(S, Request),
    /// It answers the request.
    Answer(Result<Body, CustomError>),
    /// It gives up without an answer: the worker that serves the request panics.
    Abort,
}

/// The model of a value for a placeholder.
pub enum BindView {
    Text(Seq<char>),
    Int(int),
    UInt(int),
    DateTime(Civil),
}

impl View for Bind {
    type V = BindView;

    open spec fn view(&self) -> BindView {
        match *self {
            Bind::Text(text) => BindView::Text(text@),
            Bind::Int(n) => BindView::Int(n as int),
            Bind::UInt(n) => BindView::UInt(n as int),
            Bind::DateTime(moment) => BindView::DateTime(moment@),
        }
    }
}

/// The models of the values for placeholders.
pub open spec fn bind_views(binds: Seq<Bind>) -> Seq<BindView> {
    binds.map_values(|bind: Bind| bind@)
}

/// The model of a statement.
#[verifier::ext_equal]
pub struct QueryView {
    pub via: Via,
    pub sql: Seq<char>,
    pub binds: Seq<BindView>,
}

impl View for Query {
    type V = QueryView;

    open spec fn view(&self) -> QueryView {
        QueryView {
            via: self.via,
            sql: self.sql@,
            binds: bind_views(self.binds@),
        }
    }
}

impl Query {
    /// The statement `sql`, with `binds` for its placeholders.
    pub fn new(via: Via, sql: &str, binds: Vec<Bind>) -> (query: Query)
        ensures
            query@ == (QueryView { via, sql: sql@, binds: bind_views(binds@) }),
    {
        Query { via, sql: sql.to_string(), binds }
    }
}

/// The model of an operation.
#[verifier::ext_equal]
pub enum RequestView {
    Acquire,
    Begin,
    Commit,
    Rollback,
    Run(Seq<char>),
    SessionInteger(Seq<char>),
    SessionText(Seq<char>),
    Items(QueryView),
    User(QueryView),
    Category(QueryView),
    CategoryIds(QueryView),
    Categories(QueryView),
    Config(QueryView),
    Reports(QueryView),
    Execute(QueryView),
}

impl View for Request {
    type V = RequestView;

    open spec fn view(&self) -> RequestView {
        match *self {
            Request::Acquire => RequestView::Acquire,
            Request::Begin => RequestView::Begin,
            Request::Commit => RequestView::Commit,
            Request::Rollback => RequestView::Rollback,
            Request::Run(program) => RequestView::Run(program@),
            Request::SessionInteger(key) => RequestView::SessionInteger(key@),
            Request::SessionText(key) => RequestView::SessionText(key@),
            Request::Items(query) => RequestView::Items(query@),
            Request::User(query) => RequestView::User(query@),
            Request::Category(query) => RequestView::Category(query@),
            Request::CategoryIds(query) => RequestView::CategoryIds(query@),
            Request::Categories(query) => RequestView::Categories(query@),
            Request::Config(query) => RequestView::Config(query@),
            Request::Reports(query) => RequestView::Reports(query@),
            Request::Execute(query) => RequestView::Execute(query@),
        }
    }
}

/// The model of the body of a successful answer.
pub enum BodyView {
    NewItems(NewItemsView),
    Reports(Seq<ShownEvidenceView>),
    Initialize(int, Seq<char>),
    Settings(SettingView),
    Empty,
}

impl View for Body {
    type V = BodyView;

    open spec fn view(&self) -> BodyView {
        match *self {
            Body::NewItems(page) => BodyView::NewItems(page@),
            Body::Reports(rows) => BodyView::Reports(evidence_views(rows@)),
            Body::Initialize(r) => BodyView::Initialize(r.campaign as int, r.language@),
            Body::Settings(settings) => BodyView::Settings(settings@),
            Body::Empty => BodyView::Empty,
        }
    }
}

/// The model of what a handler does next.
pub enum StepView<S> {
    Ask(S, RequestView),
    Answer(Result<BodyView, ErrorView>),
    Abort,
}

impl<S: View> View for Step<S> {
    type V = StepView<S::V>;

    open spec fn view(&self) -> StepView<S::V> {
        match *self {
            Step::Ask(state, request) => StepView::Ask(state@, request@),
            Step::Answer(Ok(body)) => StepView::Answer(Ok(body@)),
            Step::Answer(Err(error)) => StepView::Answer(Err(error@)),
            Step::Abort => StepView::Abort,
        }
    }
}

} // verus!
