//! Lists of items for sale.
use vstd::prelude::*;

use crate::error::{db_error, db_error_answer, error_answer, CustomError, StatusCode};
use crate::lookup::{
    category_request, category_step, get_category_by_id, get_user_simple_by_id, user_request,
    user_simple, CategoryLookup, CategoryStep, CategoryStepView,
};
use crate::model::{
    item_views, Category, Item, ItemSimple, ItemSimpleView, NewItemsQueryParams, NewItemsView,
    ResNewItems, UserSimple, ITEMS_PER_PAGE, ITEM_STATUS_ON_SALE, ITEM_STATUS_SOLD_OUT,
};
use crate::paging::{cursor_for, Cursor, CursorView, Position};
use crate::protocol::{
    bind_views, Bind, BindView, Body, BodyView, Query, QueryView, Reply, Request, RequestView,
    Step, StepView, Via,
};

verus! {

/// The address of an uploaded image.
pub open spec fn image_url(image_name: Seq<char>) -> Seq<char> {
    "/upload/"@ + image_name
}

/// The address of an uploaded image.
pub fn get_image_url(image_name: &str) -> (url: String)
    ensures
        url@ == image_url(image_name@),
        url@ == "/upload/"@ + image_name@,
{
    "/upload/".to_string().concat(image_name)
}

/// A row of an item as a list shows it, with its seller and its category.
pub open spec fn shown_item(row: Item, seller: UserSimple, category: Category) -> ItemSimpleView {
    ItemSimpleView {
        id: row.id,
        seller_id: row.seller_id,
        seller,
        status: row.status@,
        name: row.name@,
        price: row.price,
        image_url: image_url(row.image_name@),
        category_id: row.category_id,
        category,
        created_at: row.created_at@.unix_seconds(),
    }
}

fn show_item(row: &Item, seller: UserSimple, category: Category) -> (item: ItemSimple)
    ensures
        item@ == shown_item(*row, seller, category),
        item.id == row.id,
        item.seller_id == row.seller_id,
        item.seller == seller,
        item.status@ == row.status@,
        item.name@ == row.name@,
        item.price == row.price,
        item.image_url@ == "/upload/"@ + row.image_name@,
        item.category_id == row.category_id,
        item.category == category,
        item.created_at == row.created_at@.unix_seconds(),
{
    ItemSimple {
        id: row.id,
        seller_id: row.seller_id,
        seller,
        status: row.status.clone(),
        name: row.name.clone(),
        price: row.price,
        image_url: get_image_url(row.image_name.as_str()),
        category_id: row.category_id,
        category,
        created_at: row.created_at.timestamp(),
    }
}

/// What has been asked for about the next row of a list.
#[derive(Debug, PartialEq, Eq)]
pub enum Stage {
    /// Its seller.
    Seller,
    /// Its category; the seller has been found.
    Category(UserSimple, CategoryLookup),
}

/// A list of items under construction: for each row in turn, the seller and then the
/// category are looked up.
#[derive(Debug, PartialEq, Eq)]
pub struct Listing {
    root_category_id: Option<u32>,
    root_category_name: Option<String>,
    rows: Vec<Item>,
    shown: Vec<ItemSimple>,
    stage: Stage,
}

/// The model of a list under construction: its category, the rows, what is shown of
/// the first ones, and what has been asked for about the next one.
pub struct ListingView {
    pub root_category_id: Option<u32>,
    pub root_category_name: Option<String>,
    pub rows: Seq<Item>,
    pub shown: Seq<ItemSimpleView>,
    pub stage: Stage,
}

impl View for Listing {
    type V = ListingView;

    closed spec fn view(&self) -> ListingView {
        ListingView {
            root_category_id: self.root_category_id,
            root_category_name: self.root_category_name,
            rows: self.rows@,
            shown: item_views(self.shown@),
            stage: self.stage,
        }
    }
}

impl ListingView {
    /// The row that is being looked up.
    pub open spec fn row(self) -> Item {
        self.rows[self.shown.len() as int]
    }
}

/// The page that shows `items`: at most `ITEMS_PER_PAGE` of them, and whether there are
/// more.
pub open spec fn page(
    root_category_id: Option<u32>,
    root_category_name: Option<String>,
    items: Seq<ItemSimpleView>,
) -> NewItemsView {
    NewItemsView {
        root_category_id,
        root_category_name,
        has_next: items.len() > ITEMS_PER_PAGE,
        items: if items.len() > ITEMS_PER_PAGE {
            items.take(ITEMS_PER_PAGE as int)
        } else {
            items
        },
    }
}

/// A list continues with the seller of its next row, and answers after the last one.
pub open spec fn listing_next(listing: ListingView) -> StepView<ListingView> {
    if listing.shown.len() < listing.rows.len() {
        StepView::Ask(
            ListingView { stage: Stage::Seller, ..listing },
            user_request(Via::Pool, listing.row().seller_id),
        )
    } else {
        StepView::Answer(
            Ok(
                BodyView::NewItems(
                    page(listing.root_category_id, listing.root_category_name, listing.shown),
                ),
            ),
        )
    }
}

/// How a list continues with a reply.
pub open spec fn listing_step(listing: ListingView, reply: Reply) -> StepView<ListingView> {
    match listing.stage {
        Stage::Seller => match user_simple(reply.user()) {
            Ok(seller) => StepView::Ask(
                ListingView { stage: Stage::Category(seller, CategoryLookup::Own), ..listing },
                category_request(listing.row().category_id),
            ),
            Err(_) => StepView::Answer(
                Err(error_answer(StatusCode::NotFound, "seller not found"@)),
            ),
        },
        Stage::Category(seller, lookup) => match category_step(lookup, reply.category()) {
            CategoryStepView::Ask(lookup, request) => StepView::Ask(
                ListingView { stage: Stage::Category(seller, lookup), ..listing },
                request,
            ),
            CategoryStepView::Found(Ok(category)) => listing_next(
                ListingView {
                    shown: listing.shown.push(shown_item(listing.row(), seller, category)),
                    ..listing
                },
            ),
            CategoryStepView::Found(Err(_)) => StepView::Answer(
                Err(error_answer(StatusCode::NotFound, "category not found"@)),
            ),
        },
    }
}

/// The list of `rows` before anything about them has been looked up.
pub open spec fn listing_of(
    root_category_id: Option<u32>,
    root_category_name: Option<String>,
    rows: Seq<Item>,
) -> ListingView {
    ListingView {
        root_category_id,
        root_category_name,
        rows,
        shown: Seq::empty(),
        stage: Stage::Seller,
    }
}

impl Listing {
    #[verifier::type_invariant]
    spec fn well_formed(self) -> bool {
        self.shown.len() < self.rows.len()
    }

    /// Begins the list of `rows`.
    pub fn start(
        root_category_id: Option<u32>,
        root_category_name: Option<String>,
        rows: Vec<Item>,
    ) -> (step: Step<Listing>)
        ensures
            step@ == listing_next(listing_of(root_category_id, root_category_name, rows@)),
    {
        let shown: Vec<ItemSimple> = Vec::new();
        assert(item_views(shown@) =~= Seq::empty());
        Listing::next(root_category_id, root_category_name, rows, shown)
    }

    fn next(
        root_category_id: Option<u32>,
        root_category_name: Option<String>,
        rows: Vec<Item>,
        shown: Vec<ItemSimple>,
    ) -> (step: Step<Listing>)
        ensures
            step@ == listing_next(
                ListingView {
                    root_category_id,
                    root_category_name,
                    rows: rows@,
                    shown: item_views(shown@),
                    stage: Stage::Seller,
                },
            ),
    {
        if shown.len() < rows.len() {
            let request = get_user_simple_by_id(rows[shown.len()].seller_id);
            let stage = Stage::Seller;
            Step::Ask(
                Listing { root_category_id, root_category_name, rows, shown, stage },
                request,
            )
        } else {
            let mut items = shown;
            let has_next = if items.len() > ITEMS_PER_PAGE as usize {
                items.truncate(ITEMS_PER_PAGE as usize);
                true
            } else {
                false
            };
            assert(item_views(items@) =~= page(
                root_category_id,
                root_category_name,
                item_views(shown@),
            ).items);
            Step::Answer(
                Ok(
                    Body::NewItems(
                        ResNewItems { root_category_id, root_category_name, has_next, items },
                    ),
                ),
            )
        }
    }

    /// Continues the list with the reply to its last request.
    pub fn resume(self, reply: Reply) -> (step: Step<Listing>)
        ensures
            step@ == listing_step(self@, reply),
    {
        proof {
            use_type_invariant(&self);
        }
        let Listing { root_category_id, root_category_name, rows, shown, stage } = self;
        match stage {
            Stage::Seller => match user_simple(reply.user()) {
                Ok(seller) => {
                    let (lookup, request) = get_category_by_id(rows[shown.len()].category_id);
                    let stage = Stage::Category(seller, lookup);
                    Step::Ask(
                        Listing { root_category_id, root_category_name, rows, shown, stage },
                        request,
                    )
                },
                Err(_) => {
                    Step::Answer(Err(CustomError::new(StatusCode::NotFound, "seller not found")))
                },
            },
            Stage::Category(seller, lookup) => match lookup.resume(reply.category()) {
                CategoryStep::Ask(lookup, request) => {
                    let stage = Stage::Category(seller, lookup);
                    Step::Ask(
                        Listing { root_category_id, root_category_name, rows, shown, stage },
                        request,
                    )
                },
                CategoryStep::Found(Ok(category)) => {
                    let mut shown = shown;
                    let ghost before = shown@;
                    let item = show_item(&rows[shown.len()], seller, category);
                    shown.push(item);
                    assert(item_views(shown@) =~= item_views(before).push(item@));
                    Listing::next(root_category_id, root_category_name, rows, shown)
                },
                CategoryStep::Found(Err(_)) => {
                    Step::Answer(Err(CustomError::new(StatusCode::NotFound, "category not found")))
                },
            },
        }
    }
}

/// The number of rows that a query for a page asks for: one more than a page holds, to
/// see whether there is a next page.
pub open spec fn items_limit() -> BindView {
    BindView::UInt(ITEMS_PER_PAGE + 1)
}

/// The request for a page of the newest items.
pub open spec fn new_items_request(cursor: CursorView) -> RequestView {
    RequestView::Items(
        match cursor {
            CursorView::After(created_at, item_id) => QueryView {
                via: Via::Pool,
                sql: "SELECT * FROM `items` WHERE `status` IN (?,?) AND (`created_at` < ?  OR (`created_at` <= ? AND `id` < ?)) ORDER BY `created_at` DESC, `id` DESC LIMIT ?"@,
                binds: seq![
                    BindView::Text(ITEM_STATUS_ON_SALE@),
                    BindView::Text(ITEM_STATUS_SOLD_OUT@),
                    BindView::DateTime(created_at),
                    BindView::DateTime(created_at),
                    BindView::Int(item_id as int),
                    items_limit(),
                ],
            },
            CursorView::FirstPage => QueryView {
                via: Via::Pool,
                sql: "SELECT * FROM `items` WHERE `status` IN (?,?) ORDER BY `created_at` DESC, `id` DESC LIMIT ?"@,
                binds: seq![
                    BindView::Text(ITEM_STATUS_ON_SALE@),
                    BindView::Text(ITEM_STATUS_SOLD_OUT@),
                    items_limit(),
                ],
            },
        },
    )
}

fn ask_new_items(cursor: Cursor) -> (request: Request)
    ensures
        request@ == new_items_request(cursor@),
{
    match cursor {
        Cursor::After(created_at, item_id) => {
            let binds = vec![
                Bind::Text(ITEM_STATUS_ON_SALE.to_string()),
                Bind::Text(ITEM_STATUS_SOLD_OUT.to_string()),
                Bind::DateTime(created_at),
                Bind::DateTime(created_at),
                Bind::Int(item_id),
                Bind::UInt(ITEMS_PER_PAGE + 1),
            ];
            assert(bind_views(binds@) =~= new_items_request(cursor@)->Items_0.binds);
            Request::Items(
                Query::new(
                    Via::Pool,
                    "SELECT * FROM `items` WHERE `status` IN (?,?) AND (`created_at` < ?  OR (`created_at` <= ? AND `id` < ?)) ORDER BY `created_at` DESC, `id` DESC LIMIT ?",
                    binds,
                ),
            )
        },
        Cursor::FirstPage => {
            let binds = vec![
                Bind::Text(ITEM_STATUS_ON_SALE.to_string()),
                Bind::Text(ITEM_STATUS_SOLD_OUT.to_string()),
                Bind::UInt(ITEMS_PER_PAGE + 1),
            ];
            assert(bind_views(binds@) =~= new_items_request(cursor@)->Items_0.binds);
            Request::Items(
                Query::new(
                    Via::Pool,
                    "SELECT * FROM `items` WHERE `status` IN (?,?) ORDER BY `created_at` DESC, `id` DESC LIMIT ?",
                    binds,
                ),
            )
        },
    }
}

/// A handler of a request for the newest items.
#[derive(Debug, PartialEq, Eq)]
pub enum NewItems {
    /// The rows of the page have been asked for.
    Rows,
    /// The rows are being looked up.
    Listing(Listing),
}

/// The model of the handler.
pub enum NewItemsState {
    Rows,
    Listing(ListingView),
}

impl View for NewItems {
    type V = NewItemsState;

    open spec fn view(&self) -> NewItemsState {
        match *self {
            NewItems::Rows => NewItemsState::Rows,
            NewItems::Listing(listing) => NewItemsState::Listing(listing@),
        }
    }
}

/// The position that the parameters name; a number that is missing counts as zero.
pub open spec fn params_position(params: NewItemsQueryParams) -> Position {
    Position {
        item_id: match params.item_id {
            Some(item_id) => item_id,
            None => 0,
        },
        created_at: match params.created_at {
            Some(created_at) => created_at,
            None => 0,
        },
    }
}

/// How the handler begins.
pub open spec fn new_items_start(params: NewItemsQueryParams) -> StepView<NewItemsState> {
    match cursor_for(params_position(params)) {
        Some(cursor) => StepView::Ask(NewItemsState::Rows, new_items_request(cursor)),
        None => StepView::Abort,
    }
}

/// The step of a list, as a step of the handler.
pub open spec fn in_new_items(step: StepView<ListingView>) -> StepView<NewItemsState> {
    match step {
        StepView::Ask(listing, request) => StepView::Ask(
            NewItemsState::Listing(listing),
            request,
        ),
        StepView::Answer(answer) => StepView::Answer(answer),
        StepView::Abort => StepView::Abort,
    }
}

/// How the handler continues with a reply.
pub open spec fn new_items_step(state: NewItemsState, reply: Reply) -> StepView<NewItemsState> {
    match state {
        NewItemsState::Rows => match reply.items() {
            Ok(rows) => in_new_items(listing_next(listing_of(None, None, rows@))),
            Err(_) => StepView::Answer(Err(db_error_answer())),
        },
        NewItemsState::Listing(listing) => in_new_items(listing_step(listing, reply)),
    }
}

/// Begins the answer to a request for the newest items.
pub fn get_new_items(params: NewItemsQueryParams) -> (step: Step<NewItems>)
    ensures
        step@ == new_items_start(params),
{
    let position = Position {
        item_id: params.item_id.unwrap_or(0),
        created_at: params.created_at.unwrap_or(0),
    };
    match position.cursor() {
        Some(cursor) => Step::Ask(NewItems::Rows, ask_new_items(cursor)),
        None => Step::Abort,
    }
}

impl NewItems {
    fn listing(step: Step<Listing>) -> (lifted: Step<NewItems>)
        ensures
            lifted@ == in_new_items(step@),
    {
        match step {
            Step::Ask(listing, request) => Step::Ask(NewItems::Listing(listing), request),
            Step::Answer(answer) => Step::Answer(answer),
            Step::Abort => Step::Abort,
        }
    }

    /// Continues with the reply to the last request.
    pub fn resume(self, reply: Reply) -> (step: Step<NewItems>)
        ensures
            step@ == new_items_step(self@, reply),
    {
        match self {
            NewItems::Rows => match reply.items() {
                Ok(rows) => NewItems::listing(Listing::start(None, None, rows)),
                Err(_) => Step::Answer(Err(db_error())),
            },
            NewItems::Listing(listing) => NewItems::listing(listing.resume(reply)),
        }
    }
}

} // verus!
