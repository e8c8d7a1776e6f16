//! What lists of items show.
use vstd::prelude::*;

use crate::category_items::{
    category_ids_request, category_items_at, category_items_request, category_items_start,
    category_items_step, in_category_items, CategoryItemsState,
};
use crate::datetime::{law_stored_moment_round_trip, stored};
use crate::error::{db_error_answer, error_answer, ErrorView, StatusCode};
use crate::items::{
    in_new_items, listing_next, listing_of, listing_step, new_items_request, new_items_start,
    new_items_step, page, params_position, shown_item, ListingView, NewItemsState, Stage,
};
use crate::laws::category::{
    ancestry_ends, ancestry_ends_within, category_in, category_run, law_category_lookup,
};
use crate::laws::run::{
    comes_to, lemma_comes_to_next, lemma_comes_to_self, lemma_comes_to_trans, run, World,
};
use crate::lookup::{
    category_request, category_step, user_request, user_simple, CategoryLookup, CategoryStepView,
};
use crate::model::{
    Category, Item, ItemSimpleView, NewItemsQueryParams, UserSimple, ITEMS_PER_PAGE,
};
use crate::paging::{cursor_for, uri_position, CursorView, Position};
use crate::protocol::{BodyView, Failure, Reply, StepView, Via};

verus! {

/// What a list shows of a row: an error where its seller or its category is missing.
pub open spec fn shown_row(world: World, row: Item) -> Result<ItemSimpleView, ErrorView> {
    match user_simple(world(user_request(Via::Pool, row.seller_id)).user()) {
        Ok(seller) => match category_in(world, row.category_id) {
            Ok(category) => Ok(shown_item(row, seller, category)),
            Err(_) => Err(error_answer(StatusCode::NotFound, "category not found"@)),
        },
        Err(_) => Err(error_answer(StatusCode::NotFound, "seller not found"@)),
    }
}

/// The row at `i` is the first one that cannot be shown.
pub open spec fn fails_first_at(world: World, rows: Seq<Item>, i: int) -> bool {
    &&& 0 <= i < rows.len()
    &&& shown_row(world, rows[i]) is Err
    &&& forall|j: int| 0 <= j < i ==> shown_row(world, #[trigger] rows[j]) is Ok
}

/// A list gets as far as the category of the row at `i`: its seller is there, and all
/// rows before it can be shown.
pub open spec fn searches_category_at(world: World, rows: Seq<Item>, i: int) -> bool {
    &&& 0 <= i < rows.len()
    &&& world(user_request(Via::Pool, rows[i].seller_id)).user() is Ok
    &&& forall|j: int| 0 <= j < i ==> shown_row(world, #[trigger] rows[j]) is Ok
}

/// No search for a category that the list of `rows` comes to runs in a circle.
pub open spec fn searches_end(world: World, rows: Seq<Item>) -> bool {
    forall|i: int| #[trigger]
        searches_category_at(world, rows, i) ==> ancestry_ends(world, rows[i].category_id)
}

/// The answer with a list of rows: the page that shows them, or the error of the first
/// row that cannot be shown.
pub open spec fn list_answer(
    world: World,
    root_category_id: Option<u32>,
    root_category_name: Option<String>,
    rows: Seq<Item>,
) -> Result<BodyView, ErrorView> {
    if forall|i: int| 0 <= i < rows.len() ==> shown_row(world, #[trigger] rows[i]) is Ok {
        Ok(
            BodyView::NewItems(
                page(
                    root_category_id,
                    root_category_name,
                    rows.map_values(|row: Item| shown_row(world, row)->Ok_0),
                ),
            ),
        )
    } else {
        let i = choose|i: int| fails_first_at(world, rows, i);
        Err(shown_row(world, rows[i])->Err_0)
    }
}

/// The step of a list whose search for a category stands at `step`.
spec fn with_search(
    listing: ListingView,
    seller: UserSimple,
    step: CategoryStepView,
) -> StepView<ListingView> {
    match step {
        CategoryStepView::Ask(lookup, request) => StepView::Ask(
            ListingView { stage: Stage::Category(seller, lookup), ..listing },
            request,
        ),
        CategoryStepView::Found(Ok(category)) => listing_next(
            ListingView {
                shown: listing.shown.push(shown_item(listing.row(), seller, category)),
                ..listing
            },
        ),
        CategoryStepView::Found(Err(_)) => StepView::Answer(
            Err(error_answer(StatusCode::NotFound, "category not found"@)),
        ),
    }
}

/// The steps of a list.
pub open spec fn resume_listing() -> spec_fn(ListingView, Reply) -> StepView<ListingView> {
    |listing: ListingView, reply: Reply| listing_step(listing, reply)
}

/// A list follows the search for a category to its end.
proof fn lemma_search(
    world: World,
    listing: ListingView,
    seller: UserSimple,
    step: CategoryStepView,
    n: nat,
)
    ensures
        comes_to(
            resume_listing(),
            world,
            with_search(listing, seller, step),
            with_search(listing, seller, category_run(world, step, n)),
        ),
    decreases n,
{
    lemma_comes_to_self(resume_listing(), world, with_search(listing, seller, step));
    if n > 0 {
        if let CategoryStepView::Ask(lookup, request) = step {
            let next = category_step(lookup, world(request).category());
            let asking = ListingView { stage: Stage::Category(seller, lookup), ..listing };
            lemma_search(world, listing, seller, next, (n - 1) as nat);
            assert(listing_step(asking, world(request)) == with_search(listing, seller, next)) by {
                assert(asking.row() == listing.row());
                if let CategoryStepView::Found(Ok(category)) = next {
                    assert(asking.shown == listing.shown);
                }
            }
            lemma_comes_to_next(
                resume_listing(),
                world,
                asking,
                request,
                with_search(listing, seller, category_run(world, step, n)),
            );
        }
    }
}

/// The list of `rows` of which the first `k` have been looked up.
spec fn list_up_to(
    world: World,
    root_category_id: Option<u32>,
    root_category_name: Option<String>,
    rows: Seq<Item>,
    k: int,
) -> ListingView {
    ListingView {
        shown: rows.take(k).map_values(|row: Item| shown_row(world, row)->Ok_0),
        ..listing_of(root_category_id, root_category_name, rows)
    }
}

/// No two rows are both the first one that cannot be shown.
pub proof fn lemma_first_failure(world: World, rows: Seq<Item>, i: int)
    requires
        fails_first_at(world, rows, i),
    ensures
        (choose|k: int| fails_first_at(world, rows, k)) == i,
{
    let k = choose|k: int| fails_first_at(world, rows, k);
    if k < i {
        assert(shown_row(world, rows[k]) is Ok);
    } else if i < k {
        assert(shown_row(world, rows[i]) is Ok);
    }
}

proof fn lemma_list_from(
    world: World,
    root_category_id: Option<u32>,
    root_category_name: Option<String>,
    rows: Seq<Item>,
    k: int,
)
    requires
        0 <= k <= rows.len(),
        forall|j: int| 0 <= j < k ==> shown_row(world, #[trigger] rows[j]) is Ok,
        searches_end(world, rows),
    ensures
        comes_to(
            resume_listing(),
            world,
            listing_next(list_up_to(world, root_category_id, root_category_name, rows, k)),
            StepView::Answer(list_answer(world, root_category_id, root_category_name, rows)),
        ),
    decreases rows.len() - k,
{
    let resume = resume_listing();
    let listing = list_up_to(world, root_category_id, root_category_name, rows, k);
    let end = StepView::<ListingView>::Answer(
        list_answer(world, root_category_id, root_category_name, rows),
    );
    if k == rows.len() {
        assert(rows.take(k) =~= rows);
        lemma_comes_to_self(resume, world, listing_next(listing));
    } else {
        let row = rows[k];
        assert(listing.shown.len() == k);
        assert(listing.row() == row);
        let asking = ListingView { stage: Stage::Seller, ..listing };
        let request = user_request(Via::Pool, row.seller_id);
        let found = user_simple(world(request).user());
        if let Ok(seller) = found {
            assert(searches_category_at(world, rows, k));
            let search = CategoryStepView::Ask(
                CategoryLookup::Own,
                category_request(row.category_id),
            );
            let n = choose|n: nat| ancestry_ends_within(world, row.category_id, n);
            law_category_lookup(world, row.category_id, n);
            lemma_search(world, asking, seller, search, n);
            let after = with_search(
                asking,
                seller,
                CategoryStepView::Found(category_in(world, row.category_id)),
            );
            if let Ok(category) = category_in(world, row.category_id) {
                lemma_list_from(world, root_category_id, root_category_name, rows, k + 1);
                let next = list_up_to(world, root_category_id, root_category_name, rows, k + 1);
                assert(next.shown =~= listing.shown.push(shown_item(row, seller, category)));
                assert(after == listing_next(next));
            } else {
                assert(fails_first_at(world, rows, k));
                lemma_first_failure(world, rows, k);
                lemma_comes_to_self(resume, world, after);
            }
            lemma_comes_to_trans(resume, world, with_search(asking, seller, search), after, end);
            assert(resume(asking, world(request)) == with_search(asking, seller, search));
        } else {
            assert(fails_first_at(world, rows, k));
            lemma_first_failure(world, rows, k);
            lemma_comes_to_self(resume, world, end);
            assert(resume(asking, world(request)) == end);
        }
        lemma_comes_to_next(resume, world, asking, request, end);
    }
}

/// A list looks its rows up one after the other. It answers with the page that shows
/// them all, or with the error of the first row whose seller or category is missing.
pub proof fn law_listing(
    world: World,
    root_category_id: Option<u32>,
    root_category_name: Option<String>,
    rows: Seq<Item>,
)
    requires
        searches_end(world, rows),
    ensures
        comes_to(
            resume_listing(),
            world,
            listing_next(listing_of(root_category_id, root_category_name, rows)),
            StepView::Answer(list_answer(world, root_category_id, root_category_name, rows)),
        ),
{
    let start = list_up_to(world, root_category_id, root_category_name, rows, 0);
    assert(start.shown =~= Seq::empty());
    lemma_list_from(world, root_category_id, root_category_name, rows, 0);
}

/// The steps of a handler of a request for the newest items.
pub open spec fn resume_new_items() -> spec_fn(NewItemsState, Reply) -> StepView<NewItemsState> {
    |state: NewItemsState, reply: Reply| new_items_step(state, reply)
}

/// A handler follows its list.
proof fn lemma_run_new_items(world: World, step: StepView<ListingView>, n: nat)
    ensures
        run(resume_new_items(), world, in_new_items(step), n) == in_new_items(
            run(resume_listing(), world, step, n),
        ),
    decreases n,
{
    if n > 0 {
        if let StepView::Ask(listing, request) = step {
            lemma_run_new_items(world, listing_step(listing, world(request)), (n - 1) as nat);
        }
    }
}

/// What a request for the newest items comes to.
pub open spec fn new_items_end(world: World, params: NewItemsQueryParams) -> StepView<
    NewItemsState,
> {
    match cursor_for(params_position(params)) {
        Some(cursor) => StepView::Answer(
            match world(new_items_request(cursor)).items() {
                Ok(rows) => list_answer(world, None, None, rows@),
                Err(_) => Err(db_error_answer()),
            },
        ),
        None => StepView::Abort,
    }
}

/// A request for the newest items is answered with the list of the rows that the
/// database has for its page, and with an error where the database fails. It gets no
/// answer only where its time lies beyond the range of dates.
pub proof fn law_new_items(world: World, params: NewItemsQueryParams)
    requires
        cursor_for(params_position(params)) matches Some(cursor) ==> (world(
            new_items_request(cursor),
        ).items() matches Ok(rows) ==> searches_end(world, rows@)),
    ensures
        comes_to(resume_new_items(), world, new_items_start(params), new_items_end(world, params)),
{
    let resume = resume_new_items();
    let end = new_items_end(world, params);
    lemma_comes_to_self(resume, world, end);
    if let Some(cursor) = cursor_for(params_position(params)) {
        let request = new_items_request(cursor);
        if let Ok(rows) = world(request).items() {
            law_listing(world, None, None, rows@);
            let list = listing_next(listing_of(None, None, rows@));
            let n = choose|n: nat| #[trigger]
                run(resume_listing(), world, list, n) == StepView::<ListingView>::Answer(
                    list_answer(world, None, None, rows@),
                );
            lemma_run_new_items(world, list, n);
            assert(run(resume, world, in_new_items(list), n) == end);
            assert(resume(NewItemsState::Rows, world(request)) == in_new_items(list));
        } else {
            assert(resume(NewItemsState::Rows, world(request)) == end);
        }
        lemma_comes_to_next(resume, world, NewItemsState::Rows, request, end);
    }
}

/// The steps of a handler of a request for the newest items of a root category.
pub open spec fn resume_category_items() -> spec_fn(CategoryItemsState, Reply) -> StepView<
    CategoryItemsState,
> {
    |state: CategoryItemsState, reply: Reply| category_items_step(state, reply)
}

/// A handler follows its list.
proof fn lemma_run_category_items(world: World, step: StepView<ListingView>, n: nat)
    ensures
        run(resume_category_items(), world, in_category_items(step), n) == in_category_items(
            run(resume_listing(), world, step, n),
        ),
    decreases n,
{
    if n > 0 {
        if let StepView::Ask(listing, request) = step {
            lemma_run_category_items(world, listing_step(listing, world(request)), (n - 1) as nat);
        }
    }
}

/// The step of a handler whose search for its root category stands at `step`.
spec fn with_root_search(uri: Seq<char>, step: CategoryStepView) -> StepView<CategoryItemsState> {
    match step {
        CategoryStepView::Ask(lookup, request) => StepView::Ask(
            CategoryItemsState::Root(uri, lookup),
            request,
        ),
        CategoryStepView::Found(Ok(root)) => StepView::Ask(
            CategoryItemsState::Ids(uri, root),
            category_ids_request(root.id),
        ),
        CategoryStepView::Found(Err(_)) => StepView::Answer(
            Err(error_answer(StatusCode::BadRequest, "category not found"@)),
        ),
    }
}

/// A handler follows the search for its root category to its end.
proof fn lemma_root_search(world: World, uri: Seq<char>, step: CategoryStepView, n: nat)
    ensures
        comes_to(
            resume_category_items(),
            world,
            with_root_search(uri, step),
            with_root_search(uri, category_run(world, step, n)),
        ),
    decreases n,
{
    let resume = resume_category_items();
    lemma_comes_to_self(resume, world, with_root_search(uri, step));
    if n > 0 {
        if let CategoryStepView::Ask(lookup, request) = step {
            let next = category_step(lookup, world(request).category());
            let asking = CategoryItemsState::Root(uri, lookup);
            lemma_root_search(world, uri, next, (n - 1) as nat);
            assert(resume(asking, world(request)) == with_root_search(uri, next));
            lemma_comes_to_next(
                resume,
                world,
                asking,
                request,
                with_root_search(uri, category_run(world, step, n)),
            );
        }
    }
}

/// The rows that the database has for a page of the newest items of a root category;
/// none where it is not asked for them.
pub open spec fn category_page_rows(world: World, root: Category, uri: Seq<char>) -> Option<
    Result<Seq<Item>, Failure>,
> {
    match world(category_ids_request(root.id)).category_ids() {
        Ok(category_ids) => match uri_position(uri) {
            Some(Ok(position)) => match cursor_for(position) {
                Some(cursor) => match world(
                    category_items_request(category_ids@, cursor),
                ).items() {
                    Ok(rows) => Some(Ok(rows@)),
                    Err(e) => Some(Err(e)),
                },
                None => None,
            },
            _ => None,
        },
        Err(_) => None,
    }
}

/// What a request for the newest items of a root category comes to.
pub open spec fn category_items_end(
    world: World,
    root_category_id: u32,
    uri: Seq<char>,
) -> StepView<CategoryItemsState> {
    match category_in(world, root_category_id) {
        Err(_) => StepView::Answer(
            Err(error_answer(StatusCode::BadRequest, "category not found"@)),
        ),
        Ok(root) => if world(category_ids_request(root.id)).category_ids() is Err {
            StepView::Answer(Err(db_error_answer()))
        } else {
            match (category_page_rows(world, root, uri), uri_position(uri)) {
                (Some(Ok(rows)), _) => StepView::Answer(
                    list_answer(world, Some(root.id), Some(root.category_name), rows),
                ),
                (Some(Err(_)), _) => StepView::Answer(Err(db_error_answer())),
                (None, Some(Err(e))) => StepView::Answer(Err(e)),
                (None, _) => StepView::Abort,
            }
        },
    }
}

/// A request for the newest items of a root category is answered with the list of the
/// rows that the database has for its page, under the name of the root category, or
/// with the error of what failed first: the root category, the ids of the categories
/// below it, the position in the URI, the rows. It gets no answer only where its URI is
/// no URL or its time lies beyond the range of dates.
pub proof fn law_category_items(world: World, root_category_id: u32, uri: Seq<char>)
    requires
        ancestry_ends(world, root_category_id),
        category_in(world, root_category_id) matches Ok(root) ==> (category_page_rows(
            world,
            root,
            uri,
        ) matches Some(Ok(rows)) ==> searches_end(world, rows)),
    ensures
        comes_to(
            resume_category_items(),
            world,
            category_items_start(root_category_id, uri),
            category_items_end(world, root_category_id, uri),
        ),
{
    let resume = resume_category_items();
    let end = category_items_end(world, root_category_id, uri);
    lemma_comes_to_self(resume, world, end);
    let search = CategoryStepView::Ask(CategoryLookup::Own, category_request(root_category_id));
    let n = choose|n: nat| ancestry_ends_within(world, root_category_id, n);
    law_category_lookup(world, root_category_id, n);
    lemma_root_search(world, uri, search, n);
    let found = with_root_search(
        uri,
        CategoryStepView::Found(category_in(world, root_category_id)),
    );
    if let Ok(root) = category_in(world, root_category_id) {
        let ids = CategoryItemsState::Ids(uri, root);
        let ids_request = category_ids_request(root.id);
        if let Ok(category_ids) = world(ids_request).category_ids() {
            let next = category_items_at(root, category_ids@, uri_position(uri));
            assert(resume(ids, world(ids_request)) == next);
            if let StepView::Ask(state, request) = next {
                assert(state == CategoryItemsState::Rows(root));
                if let Ok(rows) = world(request).items() {
                    let root_id = Some(root.id);
                    let root_name = Some(root.category_name);
                    law_listing(world, root_id, root_name, rows@);
                    let list = listing_next(listing_of(root_id, root_name, rows@));
                    let m = choose|m: nat| #[trigger]
                        run(resume_listing(), world, list, m) == StepView::<ListingView>::Answer(
                            list_answer(world, root_id, root_name, rows@),
                        );
                    lemma_run_category_items(world, list, m);
                    assert(run(resume, world, in_category_items(list), m) == end);
                    assert(resume(state, world(request)) == in_category_items(list));
                } else {
                    assert(resume(state, world(request)) == end);
                }
                lemma_comes_to_next(resume, world, state, request, end);
            } else {
                assert(next == end);
            }
        } else {
            assert(resume(ids, world(ids_request)) == end);
        }
        lemma_comes_to_next(resume, world, ids, ids_request, end);
    } else {
        assert(found == end);
    }
    lemma_comes_to_trans(resume, world, with_root_search(uri, search), found, end);
}

/// A page shows at most `ITEMS_PER_PAGE` items, the first of the list and in its order,
/// and says that there is a next page exactly where it leaves some out.
pub proof fn law_page(
    root_category_id: Option<u32>,
    root_category_name: Option<String>,
    items: Seq<ItemSimpleView>,
)
    ensures
        ({
            let shown = page(root_category_id, root_category_name, items);
            &&& shown.items.len() <= ITEMS_PER_PAGE
            &&& shown.items.is_prefix_of(items)
            &&& shown.has_next <==> shown.items.len() < items.len()
            &&& shown.has_next ==> shown.items.len() == ITEMS_PER_PAGE
        }),
{
}

/// The id and the time that a list shows of an item lead, as the position of the next
/// request, to the items that follow it: the time that is handed to the database is the
/// one that it had stored.
pub proof fn law_next_page(row: Item, seller: UserSimple, category: Category)
    requires
        stored(row.created_at@),
        row.created_at@.nanosecond == 0,
        row.created_at@.unix_seconds() > 0,
        row.id > 0,
    ensures
        ({
            let item = shown_item(row, seller, category);
            let item_id = item.id;
            let created_at = item.created_at as i64;
            let cursor = CursorView::After(row.created_at@, row.id);
            &&& cursor_for(Position { item_id, created_at }) == Some(cursor)
            &&& new_items_start(
                NewItemsQueryParams { item_id: Some(item_id), created_at: Some(created_at) },
            ) == StepView::Ask(NewItemsState::Rows, new_items_request(cursor))
        }),
{
    law_stored_moment_round_trip(row.created_at@);
}

} // verus!
