//! The list of the newest items of a root category.
use vstd::prelude::*;

use crate::error::{
    by_view, db_error, db_error_answer, error_answer, CustomError, ErrorView, StatusCode,
};
use crate::items::{items_limit, listing_next, listing_of, listing_step, Listing, ListingView};
use crate::lookup::{
    category_request, category_step, get_category_by_id, CategoryLookup, CategoryStep,
    CategoryStepView,
};
use crate::model::{Category, ITEMS_PER_PAGE, ITEM_STATUS_ON_SALE, ITEM_STATUS_SOLD_OUT};
use crate::paging::{cursor_for, position_in_uri, uri_position, Cursor, CursorView, Position};
use crate::protocol::{
    bind_views, Bind, BindView, Query, QueryView, Reply, Request, RequestView, Step, StepView, Via,
};
use crate::text::{comma_list, join_numbers};

verus! {

/// The request for the ids of the categories below a root category.
pub open spec fn category_ids_request(root_category_id: u32) -> RequestView {
    RequestView::CategoryIds(
        QueryView {
            via: Via::Pool,
            sql: "SELECT id FROM `categories` WHERE parent_id=?"@,
            binds: seq![BindView::UInt(root_category_id as int)],
        },
    )
}

fn ask_category_ids(root_category_id: u32) -> (request: Request)
    ensures
        request@ == category_ids_request(root_category_id),
{
    let binds = vec![Bind::UInt(root_category_id)];
    assert(bind_views(binds@) =~= seq![BindView::UInt(root_category_id as int)]);
    Request::CategoryIds(
        Query::new(Via::Pool, "SELECT id FROM `categories` WHERE parent_id=?", binds),
    )
}

/// The request for a page of the newest items of some categories.
pub open spec fn category_items_request(
    category_ids: Seq<u32>,
    cursor: CursorView,
) -> RequestView {
    RequestView::Items(
        match cursor {
            CursorView::After(created_at, item_id) => QueryView {
                via: Via::Pool,
                sql: "SELECT * FROM `items` WHERE `status` IN (?,?) AND category_id IN ("@
                    + comma_list(category_ids)
                    + ") AND (`created_at` < ?  OR (`created_at` <= ? AND `id` < ?)) ORDER BY `created_at` DESC, `id` DESC LIMIT ?"@,
                binds: seq![
                    BindView::Text(ITEM_STATUS_ON_SALE@),
                    BindView::Text(ITEM_STATUS_SOLD_OUT@),
                    BindView::DateTime(created_at),
                    BindView::DateTime(created_at),
                    BindView::Int(item_id as int),
                    items_limit(),
                ],
            },
            CursorView::FirstPage => QueryView {
                via: Via::Pool,
                sql: "SELECT * FROM `items` WHERE `status` IN (?,?) AND category_id IN ("@
                    + comma_list(category_ids)
                    + ") ORDER BY created_at DESC, id DESC LIMIT ?"@,
                binds: seq![
                    BindView::Text(ITEM_STATUS_ON_SALE@),
                    BindView::Text(ITEM_STATUS_SOLD_OUT@),
                    items_limit(),
                ],
            },
        },
    )
}

fn ask_category_items(category_ids: &Vec<u32>, cursor: Cursor) -> (request: Request)
    ensures
        request@ == category_items_request(category_ids@, cursor@),
{
    let mut sql =
        "SELECT * FROM `items` WHERE `status` IN (?,?) AND category_id IN (".to_string();
    sql.append(join_numbers(category_ids).as_str());
    match cursor {
        Cursor::After(created_at, item_id) => {
            sql.append(
                ") AND (`created_at` < ?  OR (`created_at` <= ? AND `id` < ?)) ORDER BY `created_at` DESC, `id` DESC LIMIT ?",
            );
            let binds = vec![
                Bind::Text(ITEM_STATUS_ON_SALE.to_string()),
                Bind::Text(ITEM_STATUS_SOLD_OUT.to_string()),
                Bind::DateTime(created_at),
                Bind::DateTime(created_at),
                Bind::Int(item_id),
                Bind::UInt(ITEMS_PER_PAGE + 1),
            ];
            assert(bind_views(binds@) =~= category_items_request(
                category_ids@,
                cursor@,
            )->Items_0.binds);
            Request::Items(Query { via: Via::Pool, sql, binds })
        },
        Cursor::FirstPage => {
            sql.append(") ORDER BY created_at DESC, id DESC LIMIT ?");
            let binds = vec![
                Bind::Text(ITEM_STATUS_ON_SALE.to_string()),
                Bind::Text(ITEM_STATUS_SOLD_OUT.to_string()),
                Bind::UInt(ITEMS_PER_PAGE + 1),
            ];
            assert(bind_views(binds@) =~= category_items_request(
                category_ids@,
                cursor@,
            )->Items_0.binds);
            Request::Items(Query { via: Via::Pool, sql, binds })
        },
    }
}

/// A handler of a request for the newest items of a root category.
#[derive(Debug, PartialEq, Eq)]
pub enum CategoryItems {
    /// The root category is being looked up, for the request with this URI.
    Root(String, CategoryLookup),
    /// The ids of the categories below the root category have been asked for.
    Ids(String, Category),
    /// The rows of the page have been asked for.
    Rows(Category),
    /// The rows are being looked up.
    Listing(Listing),
}

/// The model of the handler.
pub enum CategoryItemsState {
    Root(Seq<char>, CategoryLookup),
    Ids(Seq<char>, Category),
    Rows(Category),
    Listing(ListingView),
}

impl View for CategoryItems {
    type V = CategoryItemsState;

    open spec fn view(&self) -> CategoryItemsState {
        match *self {
            CategoryItems::Root(uri, lookup) => CategoryItemsState::Root(uri@, lookup),
            CategoryItems::Ids(uri, root) => CategoryItemsState::Ids(uri@, root),
            CategoryItems::Rows(root) => CategoryItemsState::Rows(root),
            CategoryItems::Listing(listing) => CategoryItemsState::Listing(listing@),
        }
    }
}

/// How the handler begins.
pub open spec fn category_items_start(root_category_id: u32, uri: Seq<char>) -> StepView<
    CategoryItemsState,
> {
    StepView::Ask(
        CategoryItemsState::Root(uri, CategoryLookup::Own),
        category_request(root_category_id),
    )
}

/// How the handler continues with the position that the URI of its request names.
pub open spec fn category_items_at(
    root: Category,
    category_ids: Seq<u32>,
    position: Option<Result<Position, ErrorView>>,
) -> StepView<CategoryItemsState> {
    match position {
        Some(Ok(position)) => match cursor_for(position) {
            Some(cursor) => StepView::Ask(
                CategoryItemsState::Rows(root),
                category_items_request(category_ids, cursor),
            ),
            None => StepView::Abort,
        },
        Some(Err(e)) => StepView::Answer(Err(e)),
        None => StepView::Abort,
    }
}

/// The step of a list, as a step of the handler.
pub open spec fn in_category_items(step: StepView<ListingView>) -> StepView<CategoryItemsState> {
    match step {
        StepView::Ask(listing, request) => StepView::Ask(
            CategoryItemsState::Listing(listing),
            request,
        ),
        StepView::Answer(answer) => StepView::Answer(answer),
        StepView::Abort => StepView::Abort,
    }
}

/// How the handler continues with a reply.
pub open spec fn category_items_step(state: CategoryItemsState, reply: Reply) -> StepView<
    CategoryItemsState,
> {
    match state {
        CategoryItemsState::Root(uri, lookup) => match category_step(lookup, reply.category()) {
            CategoryStepView::Ask(lookup, request) => StepView::Ask(
                CategoryItemsState::Root(uri, lookup),
                request,
            ),
            CategoryStepView::Found(Ok(root)) => StepView::Ask(
                CategoryItemsState::Ids(uri, root),
                category_ids_request(root.id),
            ),
            CategoryStepView::Found(Err(_)) => StepView::Answer(
                Err(error_answer(StatusCode::BadRequest, "category not found"@)),
            ),
        },
        CategoryItemsState::Ids(uri, root) => match reply.category_ids() {
            Ok(category_ids) => category_items_at(root, category_ids@, uri_position(uri)),
            Err(_) => StepView::Answer(Err(db_error_answer())),
        },
        CategoryItemsState::Rows(root) => match reply.items() {
            Ok(rows) => in_category_items(
                listing_next(listing_of(Some(root.id), Some(root.category_name), rows@)),
            ),
            Err(_) => StepView::Answer(Err(db_error_answer())),
        },
        CategoryItemsState::Listing(listing) => in_category_items(listing_step(listing, reply)),
    }
}

/// Begins the answer to a request for the newest items of a root category.
pub fn get_new_category_items(root_category_id: u32, uri: String) -> (step: Step<CategoryItems>)
    ensures
        step@ == category_items_start(root_category_id, uri@),
{
    let (lookup, request) = get_category_by_id(root_category_id);
    Step::Ask(CategoryItems::Root(uri, lookup), request)
}

impl CategoryItems {
    /// Continues with the position that the URI of the request names: none where it is
    /// no URL.
    pub fn at_position(
        root: Category,
        category_ids: &Vec<u32>,
        position: Option<Result<Position, CustomError>>,
    ) -> (step: Step<CategoryItems>)
        ensures
            step@ == category_items_at(
                root,
                category_ids@,
                match position {
                    Some(p) => Some(by_view(p)),
                    None => None,
                },
            ),
    {
        match position {
            Some(Ok(position)) => match position.cursor() {
                Some(cursor) => Step::Ask(
                    CategoryItems::Rows(root),
                    ask_category_items(category_ids, cursor),
                ),
                None => Step::Abort,
            },
            Some(Err(e)) => Step::Answer(Err(e)),
            None => Step::Abort,
        }
    }

    fn listing(step: Step<Listing>) -> (lifted: Step<CategoryItems>)
        ensures
            lifted@ == in_category_items(step@),
    {
        match step {
            Step::Ask(listing, request) => Step::Ask(CategoryItems::Listing(listing), request),
            Step::Answer(answer) => Step::Answer(answer),
            Step::Abort => Step::Abort,
        }
    }

    /// Continues with the reply to the last request.
    pub fn resume(self, reply: Reply) -> (step: Step<CategoryItems>)
        ensures
            step@ == category_items_step(self@, reply),
    {
        match self {
            CategoryItems::Root(uri, lookup) => match lookup.resume(reply.category()) {
                CategoryStep::Ask(lookup, request) => {
                    Step::Ask(CategoryItems::Root(uri, lookup), request)
                },
                CategoryStep::Found(Ok(root)) => {
                    let request = ask_category_ids(root.id);
                    Step::Ask(CategoryItems::Ids(uri, root), request)
                },
                CategoryStep::Found(Err(_)) => Step::Answer(
                    Err(CustomError::new(StatusCode::BadRequest, "category not found")),
                ),
            },
            CategoryItems::Ids(uri, root) => match reply.category_ids() {
                Ok(category_ids) => {
                    CategoryItems::at_position(root, &category_ids, position_in_uri(uri.as_str()))
                },
                Err(_) => Step::Answer(Err(db_error())),
            },
            CategoryItems::Rows(root) => match reply.items() {
                Ok(rows) => CategoryItems::listing(
                    Listing::start(Some(root.id), Some(root.category_name), rows),
                ),
                Err(_) => Step::Answer(Err(db_error())),
            },
            CategoryItems::Listing(listing) => CategoryItems::listing(listing.resume(reply)),
        }
    }
}

} // verus!
