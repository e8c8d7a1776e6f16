//! What a page of items shows, whatever the replies.
use vstd::prelude::*;

use crate::category_items::{
    category_ids_request, category_items_request, category_items_start, category_items_step,
    in_category_items, CategoryItemsState,
};
use crate::items::{
    in_new_items, listing_next, listing_of, listing_step, new_items_start, ListingView,
    NewItemsState,
};
use crate::laws::listing::{resume_category_items, resume_new_items};
use crate::laws::run::{exchanges, replay};
use crate::lookup::{category_request, CategoryLookup};
use crate::model::{Category, Item, ItemSimpleView, NewItemsQueryParams, ITEMS_PER_PAGE};
use crate::paging::{cursor_for, uri_position};
use crate::protocol::{BodyView, Reply, RequestView, StepView};

verus! {

/// An item of a list shows a row: all but the seller and the category is the row's own.
pub open spec fn shows(item: ItemSimpleView, row: Item) -> bool {
    &&& item.id == row.id
    &&& item.seller_id == row.seller_id
    &&& item.status == row.status@
    &&& item.name == row.name@
    &&& item.price == row.price
    &&& item.image_url == "/upload/"@ + row.image_name@
    &&& item.category_id == row.category_id
    &&& item.created_at == row.created_at@.unix_seconds()
}

/// A body is a page of `rows`, under the given root category: it shows the first rows, at
/// most `ITEMS_PER_PAGE`, in their order, and says whether there are more.
pub open spec fn is_page_of(
    body: BodyView,
    root_category_id: Option<u32>,
    root_category_name: Option<String>,
    rows: Seq<Item>,
) -> bool {
    body matches BodyView::NewItems(page) && {
        &&& page.root_category_id == root_category_id
        &&& page.root_category_name == root_category_name
        &&& page.has_next <==> rows.len() > ITEMS_PER_PAGE
        &&& page.items.len() == if rows.len() > ITEMS_PER_PAGE {
            ITEMS_PER_PAGE as nat
        } else {
            rows.len()
        }
        &&& forall|i: int| 0 <= i < page.items.len() ==> shows(#[trigger] page.items[i], rows[i])
    }
}

/// What a list of `rows` has come to: it has shown some of them, each with its own data,
/// in their order, and asks for no more rows.
spec fn shows_rows(
    step: StepView<ListingView>,
    root_category_id: Option<u32>,
    root_category_name: Option<String>,
    rows: Seq<Item>,
) -> bool {
    match step {
        StepView::Ask(listing, request) => {
            &&& !(request is Items)
            &&& listing.root_category_id == root_category_id
            &&& listing.root_category_name == root_category_name
            &&& listing.rows == rows
            &&& listing.shown.len() < rows.len()
            &&& forall|i: int|
                0 <= i < listing.shown.len() ==> shows(#[trigger] listing.shown[i], rows[i])
        },
        StepView::Answer(Ok(body)) => is_page_of(body, root_category_id, root_category_name, rows),
        _ => true,
    }
}

/// What a handler of a request for the newest items has come to, once it has the rows.
spec fn new_items_show(step: StepView<NewItemsState>, rows: Seq<Item>) -> bool {
    exists|list: StepView<ListingView>|
        step == #[trigger] in_new_items(list) && shows_rows(list, None, None, rows)
}

/// What the one query for items has given decides what a handler of a request for the
/// newest items comes to.
proof fn lemma_new_items_show(params: NewItemsQueryParams, replies: Seq<Reply>)
    requires
        replies.len() > 0,
    ensures
        ({
            let step = replay(resume_new_items(), new_items_start(params), replies);
            match replies[0].items() {
                Ok(rows) => step is Abort || new_items_show(step, rows@),
                Err(_) => step is Abort || step matches StepView::Answer(Err(_)),
            }
        }),
    decreases replies.len(),
{
    let resume = resume_new_items();
    let start = new_items_start(params);
    if replies.len() == 1 {
        reveal_with_fuel(replay, 2);
        if let Ok(rows) = replies[0].items() {
            let list = listing_next(listing_of(None, None, rows@));
            assert(shows_rows(list, None, None, rows@));
            assert(start is Ask ==> replay(resume, start, replies) == in_new_items(list));
        }
    } else {
        assert(replies.drop_last()[0] == replies[0]);
        lemma_new_items_show(params, replies.drop_last());
        if let Ok(rows) = replies[0].items() {
            if let StepView::Ask(state, request) = replay(resume, start, replies.drop_last()) {
                let list = choose|list: StepView<ListingView>|
                    StepView::Ask(state, request) == #[trigger] in_new_items(list) && shows_rows(
                        list,
                        None,
                        None,
                        rows@,
                    );
                let next = listing_step(list->Ask_0, replies.last());
                assert(shows_rows(next, None, None, rows@));
                assert(replay(resume, start, replies) == in_new_items(next));
            }
        }
    }
}

/// Whatever the replies, and however the database changes between them: a page of the
/// newest items shows the rows of the one query for items, in their order, each with its
/// own data.
pub proof fn law_page_shows_the_rows(params: NewItemsQueryParams, replies: Seq<Reply>)
    ensures
        replay(resume_new_items(), new_items_start(params), replies) matches StepView::Answer(
            Ok(body),
        ) ==> replies.len() > 0 && (replies[0].items() matches Ok(rows) && is_page_of(
            body,
            None,
            None,
            rows@,
        )),
{
    if replies.len() > 0 {
        lemma_new_items_show(params, replies);
    }
}

/// No rows of items have been asked for but at `k`.
pub open spec fn asks_items_only_at(done: Seq<(RequestView, Reply)>, k: int) -> bool {
    forall|i: int| 0 <= i < done.len() && i != k ==> !((#[trigger] done[i]).0 is Items)
}

/// The first thing asked for was the category `root_category_id`, and it was found; its
/// id and its name are those of `root`.
pub open spec fn found_root(
    done: Seq<(RequestView, Reply)>,
    root_category_id: u32,
    root: Category,
) -> bool {
    &&& done.len() > 0
    &&& done[0].0 == category_request(root_category_id)
    &&& done[0].1.category() matches Ok(row) && row.id == root.id && row.category_name
        == root.category_name
}

/// `request` asks for the rows of the categories whose ids came with the reply before
/// `k`, from the position that the URI names.
pub open spec fn asks_category_page(
    done: Seq<(RequestView, Reply)>,
    k: int,
    root: Category,
    uri: Seq<char>,
    request: RequestView,
) -> bool {
    &&& 0 < k <= done.len()
    &&& done[k - 1].0 == category_ids_request(root.id)
    &&& done[k - 1].1.category_ids() matches Ok(category_ids) && uri_position(uri) matches Some(
        Ok(position),
    ) && cursor_for(position) matches Some(cursor) && request == category_items_request(
        category_ids@,
        cursor,
    )
}

/// The one query for items stands at `k`: it asked for the page that the URI names of the
/// categories below the root category, and `rows` came back.
pub open spec fn category_rows_at(
    done: Seq<(RequestView, Reply)>,
    k: int,
    root_category_id: u32,
    uri: Seq<char>,
    root: Category,
    rows: Seq<Item>,
) -> bool {
    &&& 0 <= k < done.len()
    &&& asks_items_only_at(done, k)
    &&& found_root(done, root_category_id, root)
    &&& asks_category_page(done, k, root, uri, done[k].0)
    &&& done[k].1.items() matches Ok(found) && found@ == rows
}

/// What a handler of a request for the newest items of a root category has come to.
spec fn category_items_show(
    step: StepView<CategoryItemsState>,
    done: Seq<(RequestView, Reply)>,
    root_category_id: u32,
    uri: Seq<char>,
) -> bool {
    match step {
        StepView::Ask(CategoryItemsState::Root(own_uri, lookup), request) => {
            &&& own_uri == uri
            &&& !(request is Items)
            &&& asks_items_only_at(done, -1)
            &&& match lookup {
                CategoryLookup::Own => {
                    done.len() == 0 && request == category_request(root_category_id)
                },
                CategoryLookup::Parent(root) => found_root(done, root_category_id, root),
                CategoryLookup::Ancestor(root) => found_root(done, root_category_id, root),
            }
        },
        StepView::Ask(CategoryItemsState::Ids(own_uri, root), request) => {
            &&& own_uri == uri
            &&& asks_items_only_at(done, -1)
            &&& found_root(done, root_category_id, root)
            &&& request == category_ids_request(root.id)
        },
        StepView::Ask(CategoryItemsState::Rows(root), request) => {
            &&& asks_items_only_at(done, -1)
            &&& found_root(done, root_category_id, root)
            &&& asks_category_page(done, done.len() as int, root, uri, request)
        },
        StepView::Ask(CategoryItemsState::Listing(_), _) | StepView::Answer(Ok(_)) => exists|
            k: int,
            root: Category,
            rows: Seq<Item>,
            list: StepView<ListingView>,
        |
            {
                &&& #[trigger] category_rows_at(done, k, root_category_id, uri, root, rows)
                &&& step == #[trigger] in_category_items(list)
                &&& shows_rows(list, Some(root.id), Some(root.category_name), rows)
            },
        _ => true,
    }
}

proof fn lemma_category_items_step(
    state: CategoryItemsState,
    request: RequestView,
    reply: Reply,
    done: Seq<(RequestView, Reply)>,
    root_category_id: u32,
    uri: Seq<char>,
)
    requires
        category_items_show(StepView::Ask(state, request), done, root_category_id, uri),
    ensures
        category_items_show(
            category_items_step(state, reply),
            done.push((request, reply)),
            root_category_id,
            uri,
        ),
{
    let next = category_items_step(state, reply);
    let now = done.push((request, reply));
    match state {
        CategoryItemsState::Root(_, lookup) => {},
        CategoryItemsState::Ids(_, root) => {},
        CategoryItemsState::Rows(root) => {
            if let Ok(rows) = reply.items() {
                let k = done.len() as int;
                let list = listing_next(
                    listing_of(Some(root.id), Some(root.category_name), rows@),
                );
                assert(now[k - 1] == done[k - 1]);
                assert(category_rows_at(now, k, root_category_id, uri, root, rows@));
                assert(next == in_category_items(list));
                assert(shows_rows(list, Some(root.id), Some(root.category_name), rows@));
            }
        },
        CategoryItemsState::Listing(listing) => {
            let (k, root, rows, list) = choose|
                k: int,
                root: Category,
                rows: Seq<Item>,
                list: StepView<ListingView>,
            |
                {
                    &&& #[trigger] category_rows_at(done, k, root_category_id, uri, root, rows)
                    &&& StepView::Ask(state, request) == #[trigger] in_category_items(list)
                    &&& shows_rows(list, Some(root.id), Some(root.category_name), rows)
                };
            let next_list = listing_step(listing, reply);
            assert(now[k] == done[k] && now[k - 1] == done[k - 1] && now[0] == done[0]);
            assert(category_rows_at(now, k, root_category_id, uri, root, rows));
            assert(next == in_category_items(next_list));
            assert(shows_rows(next_list, Some(root.id), Some(root.category_name), rows));
        },
    }
}

proof fn lemma_category_items_show(root_category_id: u32, uri: Seq<char>, replies: Seq<Reply>)
    ensures
        category_items_show(
            replay(resume_category_items(), category_items_start(root_category_id, uri), replies),
            exchanges(
                resume_category_items(),
                category_items_start(root_category_id, uri),
                replies,
            ),
            root_category_id,
            uri,
        ),
    decreases replies.len(),
{
    if replies.len() > 0 {
        let resume = resume_category_items();
        let start = category_items_start(root_category_id, uri);
        let before = replies.drop_last();
        lemma_category_items_show(root_category_id, uri, before);
        if let StepView::Ask(state, request) = replay(resume, start, before) {
            lemma_category_items_step(
                state,
                request,
                replies.last(),
                exchanges(resume, start, before),
                root_category_id,
                uri,
            );
        }
    }
}

/// Whatever the replies, and however the database changes between them: a page of the
/// newest items of a root category shows the rows of the one query for items, in their
/// order, each with its own data, under the id and the name of the root category that was
/// found. That query asks for the categories below the root category, from the position
/// that the URI names.
pub proof fn law_category_page_shows_the_rows(
    root_category_id: u32,
    uri: Seq<char>,
    replies: Seq<Reply>,
)
    ensures
        replay(
            resume_category_items(),
            category_items_start(root_category_id, uri),
            replies,
        ) matches StepView::Answer(Ok(body)) ==> exists|k: int, root: Category, rows: Seq<Item>|
            #[trigger] category_rows_at(
                exchanges(
                    resume_category_items(),
                    category_items_start(root_category_id, uri),
                    replies,
                ),
                k,
                root_category_id,
                uri,
                root,
                rows,
            ) && is_page_of(body, Some(root.id), Some(root.category_name), rows),
{
    lemma_category_items_show(root_category_id, uri, replies);
}

} // verus!
