//! Models hold what the values hold: nothing is left out, cut or exchanged.
use vstd::prelude::*;

use crate::datetime::NaiveDateTime;
use crate::error::{by_view, db_error_answer, error_answer, CustomError, ErrorView, StatusCode};
use crate::lookup::{CategoryStep, CategoryStepView, UserStep, UserStepView};
use crate::model::{
    evidence_views, item_views, ItemSimple, ResInitialize, ResNewItems, ResSetting, ShownEvidence,
    ShownUser, DEFAULT_PAYMENT_SERVICE_URL, DEFAULT_SHIPMENT_SERVICE_URL, ITEMS_PER_PAGE,
    ITEM_MAX_PRICE, ITEM_MIN_PRICE, ITEM_PRICE_ERR_MSG, ITEM_STATUS_CANCEL, ITEM_STATUS_ON_SALE,
    ITEM_STATUS_SOLD_OUT, ITEM_STATUS_STOP, ITEM_STATUS_TRADING, TRANSACTIONS_PER_PAGE,
};
use crate::paging::{Cursor, CursorView};
use crate::protocol::{
    bind_views, Bind, BindView, Body, BodyView, Failure, Query, Reply, Request, RequestView, Step,
    StepView,
};

verus! {

/// The model of a value for a placeholder is that value.
pub proof fn law_bind_model(text: String, n: i64, m: u32, moment: NaiveDateTime)
    ensures
        Bind::Text(text)@ == BindView::Text(text@),
        Bind::Int(n)@ == BindView::Int(n as int),
        Bind::UInt(m)@ == BindView::UInt(m as int),
        Bind::DateTime(moment)@ == BindView::DateTime(moment@),
        moment@.year == moment.year,
        moment@.month == moment.month,
        moment@.day == moment.day,
        moment@.hour == moment.hour,
        moment@.minute == moment.minute,
        moment@.second == moment.second,
        moment@.nanosecond == 0,
{
}

/// The model of a statement has its text, its connection and its values, one by one.
pub proof fn law_query_model(query: Query)
    ensures
        query@.via == query.via,
        query@.sql == query.sql@,
        query@.binds == bind_views(query.binds@),
        bind_views(query.binds@).len() == query.binds@.len(),
        forall|i: int|
            0 <= i < query.binds@.len() ==> #[trigger] bind_views(query.binds@)[i]
                == query.binds@[i]@,
{
}

/// The model of an operation is of its kind, and has its statement, program or key.
pub proof fn law_request_model(query: Query, text: String)
    ensures
        Request::Acquire@ == RequestView::Acquire,
        Request::Begin@ == RequestView::Begin,
        Request::Commit@ == RequestView::Commit,
        Request::Rollback@ == RequestView::Rollback,
        Request::Run(text)@ == RequestView::Run(text@),
        Request::SessionInteger(text)@ == RequestView::SessionInteger(text@),
        Request::SessionText(text)@ == RequestView::SessionText(text@),
        Request::Items(query)@ == RequestView::Items(query@),
        Request::User(query)@ == RequestView::User(query@),
        Request::Category(query)@ == RequestView::Category(query@),
        Request::CategoryIds(query)@ == RequestView::CategoryIds(query@),
        Request::Categories(query)@ == RequestView::Categories(query@),
        Request::Config(query)@ == RequestView::Config(query@),
        Request::Reports(query)@ == RequestView::Reports(query@),
        Request::Execute(query)@ == RequestView::Execute(query@),
{
}

/// The model of an entry of a list has each of its fields.
pub proof fn law_entry_model(item: ItemSimple)
    ensures
        item@.id == item.id,
        item@.seller_id == item.seller_id,
        item@.seller == item.seller,
        item@.status == item.status@,
        item@.name == item.name@,
        item@.price == item.price,
        item@.image_url == item.image_url@,
        item@.category_id == item.category_id,
        item@.category == item.category,
        item@.created_at == item.created_at,
{
}

/// The model of a page has its fields and each of its entries, in their order.
pub proof fn law_page_model(page: ResNewItems)
    ensures
        page@.root_category_id == page.root_category_id,
        page@.root_category_name == page.root_category_name,
        page@.has_next == page.has_next,
        page@.items == item_views(page.items@),
        page@.items.len() == page.items@.len(),
        forall|i: int|
            0 <= i < page.items@.len() ==> (#[trigger] page@.items[i]) == page.items@[i]@,
{
}

/// The model of a shown user has each of its fields.
pub proof fn law_shown_user_model(user: ShownUser)
    ensures
        user@.id == user.id,
        user@.account_name == user.account_name@,
        user@.address == user.address@,
        user@.num_sell_items == user.num_sell_items,
{
}

/// The model of the settings has each of their fields.
pub proof fn law_settings_model(settings: ResSetting)
    ensures
        settings@.csrf_token == settings.csrf_token@,
        settings@.payment_service_url == settings.payment_service_url@,
        settings@.categories == settings.categories@,
        settings@.user is Some <==> settings.user is Some,
        settings.user matches Some(user) ==> settings@.user == Some(user@),
{
}

/// The model of a shown transaction evidence has each of its fields.
pub proof fn law_shown_evidence_model(row: ShownEvidence)
    ensures
        row@.id == row.id,
        row@.seller_id == row.seller_id,
        row@.buyer_id == row.buyer_id,
        row@.status == row.status@,
        row@.item_id == row.item_id,
        row@.item_name == row.item_name@,
        row@.item_price == row.item_price,
        row@.item_description == row.item_description@,
        row@.item_category_id == row.item_category_id,
        row@.item_root_category_id == row.item_root_category_id,
{
}

/// The model of a body is of its kind, and has what it holds.
pub proof fn law_body_model(
    page: ResNewItems,
    rows: Vec<ShownEvidence>,
    initialized: ResInitialize,
    settings: ResSetting,
)
    ensures
        Body::NewItems(page)@ == BodyView::NewItems(page@),
        Body::Reports(rows)@ == BodyView::Reports(evidence_views(rows@)),
        evidence_views(rows@).len() == rows@.len(),
        forall|i: int| 0 <= i < rows@.len() ==> #[trigger] evidence_views(rows@)[i] == rows@[i]@,
        Body::Initialize(initialized)@ == BodyView::Initialize(
            initialized.campaign as int,
            initialized.language@,
        ),
        Body::Settings(settings)@ == BodyView::Settings(settings@),
        Body::Empty@ == BodyView::Empty,
{
}

/// The model of a step is of its kind, and has its request or its answer.
pub proof fn law_step_model<S: View>(state: S, request: Request, body: Body, error: CustomError)
    ensures
        Step::Ask(state, request)@ == StepView::Ask(state@, request@),
        Step::<S>::Answer(Ok(body))@ == StepView::<S::V>::Answer(Ok(body@)),
        Step::<S>::Answer(Err(error))@ == StepView::<S::V>::Answer(Err(error@)),
        Step::<S>::Abort@ == StepView::<S::V>::Abort,
{
}

/// The model of a step of a search is of its kind, and has its request or its result.
pub proof fn law_search_models(
    category_step: CategoryStep,
    user_step: UserStep,
    cursor: Cursor,
)
    ensures
        category_step matches CategoryStep::Ask(lookup, request) ==> category_step@
            == CategoryStepView::Ask(lookup, request@),
        category_step matches CategoryStep::Found(found) ==> category_step@
            == CategoryStepView::Found(found),
        user_step matches UserStep::Ask(lookup, request) ==> user_step@ == UserStepView::Ask(
            lookup,
            request@,
        ),
        user_step matches UserStep::Found(Ok(user)) ==> user_step@ == UserStepView::Found(Ok(user)),
        user_step matches UserStep::Found(Err(e)) ==> user_step@ == UserStepView::Found(Err(e@)),
        cursor is FirstPage ==> cursor@ == CursorView::FirstPage,
        cursor matches Cursor::After(created_at, id) ==> cursor@ == CursorView::After(
            created_at@,
            id,
        ),
{
}

/// An error answer has the status and the message that it was made of.
pub proof fn law_error_answers(status: StatusCode, message: Seq<char>, e: CustomError)
    ensures
        error_answer(status, message).status == status,
        error_answer(status, message).message == message,
        e@.status == e.error.0,
        e@.message == e.error.1@,
        db_error_answer() == (ErrorView {
            status: StatusCode::InternalServerError,
            message: "db error"@,
        }),
{
}

/// A result is the same by its view: a success with its value, an error with what it says.
pub proof fn law_results_by_view<T>(value: T, e: CustomError)
    ensures
        by_view(Ok::<T, CustomError>(value)) == Ok::<T, ErrorView>(value),
        by_view(Err::<T, CustomError>(e)) == Err::<T, ErrorView>(e@),
{
}

/// The statuses are those of HTTP: a request that is wrong, a thing that is missing, a
/// failure of the service. The text of a status begins with its number.
pub proof fn law_statuses(status: StatusCode)
    ensures
        status is BadRequest ==> status.code() == 400 && status.text() == "400 Bad Request"@,
        status is NotFound ==> status.code() == 404 && status.text() == "404 Not Found"@,
        status is InternalServerError ==> status.code() == 500 && status.text()
            == "500 Internal Server Error"@,
{
}

/// A reply is read as what it holds where it is of the kind that is looked for, and as a
/// failure where it is of another kind.
pub proof fn law_replies(reply: Reply)
    ensures
        reply.done() == match reply {
            Reply::Done(r) => r,
            _ => Err(Failure::Other),
        },
        reply.session_integer() == match reply {
            Reply::SessionInteger(r) => r,
            _ => Err(Failure::Other),
        },
        reply.session_text() == match reply {
            Reply::SessionText(r) => r,
            _ => Err(Failure::Other),
        },
        reply.items() == match reply {
            Reply::Items(r) => r,
            _ => Err(Failure::Other),
        },
        reply.user() == match reply {
            Reply::User(r) => r,
            _ => Err(Failure::Other),
        },
        reply.category() == match reply {
            Reply::Category(r) => r,
            _ => Err(Failure::Other),
        },
        reply.category_ids() == match reply {
            Reply::CategoryIds(r) => r,
            _ => Err(Failure::Other),
        },
        reply.categories() == match reply {
            Reply::Categories(r) => r,
            _ => Err(Failure::Other),
        },
        reply.config() == match reply {
            Reply::Config(r) => r,
            _ => Err(Failure::Other),
        },
        reply.reports() == match reply {
            Reply::Reports(r) => r,
            _ => Err(Failure::Other),
        },
{
}

/// The limits and the words of the service.
pub proof fn law_constants()
    ensures
        ITEMS_PER_PAGE == 48,
        TRANSACTIONS_PER_PAGE == 10,
        ITEM_MIN_PRICE == 100,
        ITEM_MAX_PRICE == 1_000_000,
        ITEM_PRICE_ERR_MSG@
            == "商品価格は100ｲｽｺｲﾝ以上、1,000,000ｲｽｺｲﾝ以下にしてください"@,
        ITEM_STATUS_ON_SALE@ == "on_sale"@,
        ITEM_STATUS_TRADING@ == "trading"@,
        ITEM_STATUS_SOLD_OUT@ == "sold_out"@,
        ITEM_STATUS_STOP@ == "stop"@,
        ITEM_STATUS_CANCEL@ == "cancel"@,
        DEFAULT_PAYMENT_SERVICE_URL@ == "http://localhost:5555"@,
        DEFAULT_SHIPMENT_SERVICE_URL@ == "http://localhost:7000"@,
{
}

} // verus!
