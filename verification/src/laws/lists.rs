//! How a list is made of the replies, whatever they are: which row, which seller and which
//! category each entry comes from.
use vstd::prelude::*;

use crate::category_items::{
    category_ids_request, category_items_request, category_items_start, category_items_step,
    in_category_items, CategoryItemsState,
};
use crate::error::ErrorView;
use crate::items::{
    in_new_items, listing_next, listing_of, listing_step, new_items_request, new_items_start,
    params_position, shown_item, ListingView, NewItemsState, Stage,
};
use crate::laws::entries::has_columns_of;
use crate::laws::listing::{resume_category_items, resume_listing, resume_new_items};
use crate::laws::run::{exchanges, lemma_exchanges, replay};
use crate::lookup::{
    category_request, category_step, user_request, CategoryLookup, CategoryStepView,
};
use crate::model::{Category, Item, ItemSimpleView, NewItemsQueryParams};
use crate::paging::{cursor_for, uri_position};
use crate::protocol::{Reply, RequestView, StepView, Via};

verus! {

/// The parent of the category in a reply, where it has one.
pub open spec fn parent_in(reply: Reply) -> Option<u32> {
    match reply {
        Reply::Category(Ok(category)) if category.parent_id != 0 => Some(category.parent_id),
        _ => None,
    }
}

/// The exchanges look for a category and then, one after the other, for its ancestors.
pub open spec fn goes_up(done: Seq<(RequestView, Reply)>, category_id: u32) -> bool {
    &&& done.len() > 0 ==> done[0].0 == category_request(category_id)
    &&& forall|j: int|
        1 <= j < done.len() ==> (parent_in(done[j - 1].1) matches Some(parent_id) && (
        #[trigger] done[j]).0 == category_request(parent_id))
}

/// The category that was found is the one of the first reply; where it has a parent, with
/// the name of that parent from the second reply, or without one where there is none.
pub open spec fn finds(done: Seq<(RequestView, Reply)>, category: Category) -> bool {
    done[0].1 matches Reply::Category(Ok(own)) && {
        &&& category.id == own.id
        &&& category.parent_id == own.parent_id
        &&& category.category_name == own.category_name
        &&& own.parent_id == 0 ==> category.parent_category_name == own.parent_category_name
        &&& own.parent_id != 0 ==> category.parent_category_name == match done[1].1 {
            Reply::Category(Ok(parent)) => Some(parent.category_name),
            _ => None,
        }
    }
}

/// A search for a category is over, and has found `category`.
pub open spec fn search_finds(
    done: Seq<(RequestView, Reply)>,
    category_id: u32,
    category: Category,
) -> bool {
    &&& done.len() > 0
    &&& goes_up(done, category_id)
    &&& parent_in(done.last().1) is None
    &&& finds(done, category)
}

/// A search for a category goes on with `request`.
pub open spec fn search_asks(
    done: Seq<(RequestView, Reply)>,
    category_id: u32,
    request: RequestView,
) -> bool {
    &&& goes_up(done, category_id)
    &&& done.len() == 0 ==> request == category_request(category_id)
    &&& done.len() > 0 ==> (parent_in(done.last().1) matches Some(parent_id) && request
        == category_request(parent_id))
}

/// A search for a category is over, and has found none.
pub open spec fn search_fails(done: Seq<(RequestView, Reply)>, category_id: u32) -> bool {
    &&& done.len() == 1
    &&& goes_up(done, category_id)
    &&& !(done[0].1 matches Reply::Category(Ok(_)))
}

/// Where a search stands after some exchanges.
pub open spec fn search_at(lookup: CategoryLookup, done: Seq<(RequestView, Reply)>) -> bool {
    match lookup {
        CategoryLookup::Own => done.len() == 0,
        CategoryLookup::Parent(category) => {
            &&& done.len() == 1
            &&& done[0].1 matches Reply::Category(Ok(own)) && own == category
        },
        CategoryLookup::Ancestor(category) => done.len() > 1 && finds(done, category),
    }
}

/// A search finds the category that was asked for, with the name of its parent, and goes
/// up until there is no further parent or one cannot be read. It fails only where the
/// category itself cannot be read.
pub proof fn law_search_step(
    lookup: CategoryLookup,
    request: RequestView,
    reply: Reply,
    done: Seq<(RequestView, Reply)>,
    category_id: u32,
)
    requires
        search_at(lookup, done),
        search_asks(done, category_id, request),
    ensures
        ({
            let now = done.push((request, reply));
            match category_step(lookup, reply.category()) {
                CategoryStepView::Ask(next, next_request) => search_at(next, now) && search_asks(
                    now,
                    category_id,
                    next_request,
                ),
                CategoryStepView::Found(Ok(category)) => search_finds(now, category_id, category),
                CategoryStepView::Found(Err(_)) => search_fails(now, category_id),
            }
        }),
{
    let now = done.push((request, reply));
    assert forall|j: int| 0 <= j < done.len() implies now[j] == done[j] by {}
    assert forall|j: int| 1 <= j < now.len() implies (parent_in(now[j - 1].1) matches Some(
        parent_id,
    ) && (#[trigger] now[j]).0 == category_request(parent_id)) by {
        if j < done.len() {
            assert(now[j] == done[j]);
        }
    }
    assert(goes_up(now, category_id));
}

/// The exchanges on a row give its entry: the seller is the user that was found under the
/// id of the row's seller, the category the one that was found under the id of the row's
/// category, and all else is the row's own.
pub open spec fn row_gives(
    done: Seq<(RequestView, Reply)>,
    row: Item,
    entry: ItemSimpleView,
) -> bool {
    &&& done.len() > 1
    &&& done[0].0 == user_request(Via::Pool, row.seller_id)
    &&& done[0].1 matches Reply::User(Ok(user)) && {
        &&& entry.seller.id == user.id
        &&& entry.seller.account_name == user.account_name
        &&& entry.seller.num_sell_items == user.num_sell_items
    }
    &&& search_finds(done.skip(1), row.category_id, entry.category)
    &&& has_columns_of(entry, row)
}

/// The exchanges on a row so far; `request` comes next.
pub open spec fn row_asks(
    done: Seq<(RequestView, Reply)>,
    row: Item,
    request: RequestView,
) -> bool {
    if done.len() == 0 {
        request == user_request(Via::Pool, row.seller_id)
    } else {
        &&& done[0].0 == user_request(Via::Pool, row.seller_id)
        &&& done[0].1 matches Reply::User(Ok(_))
        &&& search_asks(done.skip(1), row.category_id, request)
    }
}

/// The exchanges on a row fail: its seller or its category cannot be read.
pub open spec fn row_fails(
    done: Seq<(RequestView, Reply)>,
    row: Item,
    e: ErrorView,
) -> bool {
    &&& done.len() > 0
    &&& e.status is NotFound
    &&& done[0].0 == user_request(Via::Pool, row.seller_id)
    &&& match done[0].1 {
        Reply::User(Ok(_)) => search_fails(done.skip(1), row.category_id) && e.message
            == "category not found"@,
        _ => done.len() == 1 && e.message == "seller not found"@,
    }
}

/// The exchanges up to each of the `cuts` give, one after the other, the entries of the
/// first rows.
pub open spec fn rows_give(
    done: Seq<(RequestView, Reply)>,
    cuts: Seq<int>,
    rows: Seq<Item>,
    entries: Seq<ItemSimpleView>,
) -> bool {
    &&& entries.len() <= rows.len()
    &&& cuts.len() == entries.len() + 1
    &&& cuts[0] == 0
    &&& cuts.last() <= done.len()
    &&& forall|k: int|
        0 <= k < entries.len() ==> #[trigger] row_gives_at(done, cuts, rows, entries, k)
}

/// The exchanges from the cut at `k` up to the next one give the entry of the row there.
pub open spec fn row_gives_at(
    done: Seq<(RequestView, Reply)>,
    cuts: Seq<int>,
    rows: Seq<Item>,
    entries: Seq<ItemSimpleView>,
    k: int,
) -> bool {
    &&& 0 <= cuts[k] <= cuts[k + 1] <= done.len()
    &&& row_gives(done.subrange(cuts[k], cuts[k + 1]), rows[k], entries[k])
}

/// What a list of `rows` has come to with the given exchanges, of which those up to each
/// of the `cuts` gave an entry. It looks the rows up one after the other. It answers with
/// the first 48 entries once all rows have theirs, or with an error at the first row that
/// has none.
pub open spec fn list_comes_to<S>(
    step: StepView<S>,
    done: Seq<(RequestView, Reply)>,
    cuts: Seq<int>,
    rows: Seq<Item>,
    entries: Seq<ItemSimpleView>,
    root_category_id: Option<u32>,
    root_category_name: Option<String>,
) -> bool {
    &&& rows_give(done, cuts, rows, entries)
    &&& match step {
        StepView::Ask(_, request) => {
            &&& entries.len() < rows.len()
            &&& row_asks(done.skip(cuts.last()), rows[entries.len() as int], request)
        },
        StepView::Answer(Ok(body)) => {
            &&& entries.len() == rows.len()
            &&& cuts.last() == done.len()
            &&& body is NewItems
            &&& body->NewItems_0.root_category_id == root_category_id
            &&& body->NewItems_0.root_category_name == root_category_name
            &&& body->NewItems_0.has_next <==> rows.len() > 48
            &&& body->NewItems_0.items =~= if rows.len() > 48 {
                entries.take(48)
            } else {
                entries
            }
        },
        StepView::Answer(Err(e)) => {
            &&& entries.len() < rows.len()
            &&& row_fails(done.skip(cuts.last()), rows[entries.len() as int], e)
        },
        StepView::Abort => false,
    }
}

/// The same, with the state of the list.
spec fn list_books(
    step: StepView<ListingView>,
    done: Seq<(RequestView, Reply)>,
    cuts: Seq<int>,
    rows: Seq<Item>,
    entries: Seq<ItemSimpleView>,
    root_category_id: Option<u32>,
    root_category_name: Option<String>,
) -> bool {
    &&& list_comes_to(step, done, cuts, rows, entries, root_category_id, root_category_name)
    &&& step matches StepView::Ask(listing, _) ==> {
        let own = done.skip(cuts.last());
        &&& listing.root_category_id == root_category_id
        &&& listing.root_category_name == root_category_name
        &&& listing.rows == rows
        &&& listing.shown == entries
        &&& match listing.stage {
            Stage::Seller => own.len() == 0,
            Stage::Category(seller, lookup) => {
                &&& own.len() > 0
                &&& own[0].1 matches Reply::User(Ok(user)) && {
                    &&& seller.id == user.id
                    &&& seller.account_name == user.account_name
                    &&& seller.num_sell_items == user.num_sell_items
                }
                &&& search_at(lookup, own.skip(1))
            },
        }
    }
}

/// More exchanges do not change what the first ones give.
proof fn lemma_rows_still_give(
    done: Seq<(RequestView, Reply)>,
    exchange: (RequestView, Reply),
    cuts: Seq<int>,
    rows: Seq<Item>,
    entries: Seq<ItemSimpleView>,
)
    requires
        rows_give(done, cuts, rows, entries),
    ensures
        rows_give(done.push(exchange), cuts, rows, entries),
{
    let now = done.push(exchange);
    assert forall|k: int| 0 <= k < entries.len() implies #[trigger] row_gives_at(
        now,
        cuts,
        rows,
        entries,
        k,
    ) by {
        assert(row_gives_at(done, cuts, rows, entries, k));
        assert(now.subrange(cuts[k], cuts[k + 1]) =~= done.subrange(cuts[k], cuts[k + 1]));
    }
}

proof fn lemma_list_step(
    listing: ListingView,
    request: RequestView,
    reply: Reply,
    done: Seq<(RequestView, Reply)>,
    cuts: Seq<int>,
    rows: Seq<Item>,
    entries: Seq<ItemSimpleView>,
    root_category_id: Option<u32>,
    root_category_name: Option<String>,
) -> (next: (Seq<int>, Seq<ItemSimpleView>))
    requires
        list_books(
            StepView::Ask(listing, request),
            done,
            cuts,
            rows,
            entries,
            root_category_id,
            root_category_name,
        ),
    ensures
        list_books(
            listing_step(listing, reply),
            done.push((request, reply)),
            next.0,
            rows,
            next.1,
            root_category_id,
            root_category_name,
        ),
{
    let now = done.push((request, reply));
    let own = done.skip(cuts.last());
    let own_now = now.skip(cuts.last());
    let row = rows[entries.len() as int];
    lemma_rows_still_give(done, (request, reply), cuts, rows, entries);
    assert(cuts.last() >= 0) by {
        if entries.len() > 0 {
            let k = entries.len() - 1;
            assert(row_gives_at(done, cuts, rows, entries, k));
        }
    }
    assert(own_now =~= own.push((request, reply)));
    match listing.stage {
        Stage::Seller => {
            assert(own_now.skip(1) =~= Seq::empty());
            (cuts, entries)
        },
        Stage::Category(seller, lookup) => {
            law_search_step(lookup, request, reply, own.skip(1), row.category_id);
            assert(own_now.skip(1) =~= own.skip(1).push((request, reply)));
            if let CategoryStepView::Found(Ok(category)) = category_step(
                lookup,
                reply.category(),
            ) {
                let entry = shown_item(row, seller, category);
                let more_cuts = cuts.push(now.len() as int);
                let more = entries.push(entry);
                assert(now.subrange(cuts.last(), now.len() as int) =~= own_now);
                assert(row_gives(own_now, row, entry));
                assert forall|k: int| 0 <= k < more.len() implies #[trigger] row_gives_at(
                    now,
                    more_cuts,
                    rows,
                    more,
                    k,
                ) by {
                    if k < entries.len() {
                        assert(row_gives_at(now, cuts, rows, entries, k));
                        assert(more[k] == entries[k]);
                        assert(more_cuts[k] == cuts[k] && more_cuts[k + 1] == cuts[k + 1]);
                    } else {
                        assert(more_cuts[k] == cuts.last());
                    }
                }
                assert(now.skip(now.len() as int) =~= Seq::empty());
                (more_cuts, more)
            } else {
                (cuts, entries)
            }
        },
    }
}

/// A list looks its rows up one after the other, each by its seller and then by its
/// category. Once all rows have their entries it shows the first 48 of them and says
/// whether there are more; at the first row whose seller or category cannot be read it
/// ends with the error of that.
pub proof fn law_list(
    root_category_id: Option<u32>,
    root_category_name: Option<String>,
    rows: Seq<Item>,
    replies: Seq<Reply>,
) -> (found: (Seq<int>, Seq<ItemSimpleView>))
    ensures
        list_comes_to(
            replay(
                resume_listing(),
                listing_next(listing_of(root_category_id, root_category_name, rows)),
                replies,
            ),
            exchanges(
                resume_listing(),
                listing_next(listing_of(root_category_id, root_category_name, rows)),
                replies,
            ),
            found.0,
            rows,
            found.1,
            root_category_id,
            root_category_name,
        ),
{
    lemma_list(root_category_id, root_category_name, rows, replies)
}

proof fn lemma_list(
    root_category_id: Option<u32>,
    root_category_name: Option<String>,
    rows: Seq<Item>,
    replies: Seq<Reply>,
) -> (found: (Seq<int>, Seq<ItemSimpleView>))
    ensures
        list_books(
            replay(
                resume_listing(),
                listing_next(listing_of(root_category_id, root_category_name, rows)),
                replies,
            ),
            exchanges(
                resume_listing(),
                listing_next(listing_of(root_category_id, root_category_name, rows)),
                replies,
            ),
            found.0,
            rows,
            found.1,
            root_category_id,
            root_category_name,
        ),
    decreases replies.len(),
{
    let start = listing_next(listing_of(root_category_id, root_category_name, rows));
    if replies.len() == 0 {
        let none = Seq::<(RequestView, Reply)>::empty();
        assert(none.skip(0) =~= none);
        (seq![0int], Seq::empty())
    } else {
        let before = replies.drop_last();
        let (cuts, entries) = lemma_list(root_category_id, root_category_name, rows, before);
        if let StepView::Ask(listing, request) = replay(resume_listing(), start, before) {
            lemma_list_step(
                listing,
                request,
                replies.last(),
                exchanges(resume_listing(), start, before),
                cuts,
                rows,
                entries,
                root_category_id,
                root_category_name,
            )
        } else {
            (cuts, entries)
        }
    }
}

/// The answer where the database fails.
pub open spec fn fails_with_db_error<S>(step: StepView<S>) -> bool {
    step matches StepView::Answer(Err(e)) && e.status is InternalServerError && e.message
        == "db error"@
}

/// What a request for the newest items has come to: it asks for the rows of the page that
/// its parameters name, and lists those that come back.
pub open spec fn new_items_come_to<S>(
    step: StepView<S>,
    done: Seq<(RequestView, Reply)>,
    params: NewItemsQueryParams,
    cuts: Seq<int>,
    entries: Seq<ItemSimpleView>,
) -> bool {
    match cursor_for(params_position(params)) {
        None => done.len() == 0 && step is Abort,
        Some(cursor) => if done.len() == 0 {
            step matches StepView::Ask(_, request) && request == new_items_request(cursor)
        } else {
            &&& done[0].0 == new_items_request(cursor)
            &&& match done[0].1 {
                Reply::Items(Ok(rows)) => list_comes_to(
                    step,
                    done.skip(1),
                    cuts,
                    rows@,
                    entries,
                    None,
                    None,
                ),
                _ => done.len() == 1 && fails_with_db_error(step),
            }
        },
    }
}

proof fn lemma_new_items(params: NewItemsQueryParams, replies: Seq<Reply>) -> (found: (
    Seq<int>,
    Seq<ItemSimpleView>,
    StepView<ListingView>,
))
    ensures
        ({
            let step = replay(resume_new_items(), new_items_start(params), replies);
            let done = exchanges(resume_new_items(), new_items_start(params), replies);
            &&& new_items_come_to(step, done, params, found.0, found.1)
            &&& step matches StepView::Ask(NewItemsState::Rows, _) ==> done.len() == 0
            &&& step matches StepView::Ask(NewItemsState::Listing(_), _) ==> {
                &&& done.len() > 0
                &&& step == in_new_items(found.2)
                &&& done[0].1 matches Reply::Items(Ok(rows)) && list_books(
                    found.2,
                    done.skip(1),
                    found.0,
                    rows@,
                    found.1,
                    None,
                    None,
                )
            }
        }),
    decreases replies.len(),
{
    let start = new_items_start(params);
    if replies.len() == 0 {
        (seq![0int], Seq::empty(), StepView::Abort)
    } else {
        let before = exchanges(resume_new_items(), start, replies.drop_last());
        let now = exchanges(resume_new_items(), start, replies);
        let (cuts, entries, list) = lemma_new_items(params, replies.drop_last());
        match replay(resume_new_items(), start, replies.drop_last()) {
            StepView::Ask(NewItemsState::Rows, request) => {
                if let Reply::Items(Ok(rows)) = replies.last() {
                    let none = Seq::<(RequestView, Reply)>::empty();
                    assert(now.skip(1) =~= none);
                    assert(none.skip(0) =~= none);
                    (
                        seq![0int],
                        Seq::empty(),
                        listing_next(listing_of(None, None, rows@)),
                    )
                } else {
                    (cuts, entries, list)
                }
            },
            StepView::Ask(NewItemsState::Listing(listing), request) => {
                let rows = before[0].1->Items_0->Ok_0@;
                assert(now[0] == before[0]);
                assert(now.skip(1) =~= before.skip(1).push((request, replies.last())));
                let (more_cuts, more) = lemma_list_step(
                    listing,
                    request,
                    replies.last(),
                    before.skip(1),
                    cuts,
                    rows,
                    entries,
                    None,
                    None,
                );
                (more_cuts, more, listing_step(listing, replies.last()))
            },
            _ => (cuts, entries, list),
        }
    }
}

/// A request for the newest items asks for the rows of the page that its parameters name,
/// and lists the rows that come back: each entry with the columns of its row, the seller
/// and the category that were found for it. It fails where the rows cannot be read, and
/// gets no answer where its time lies beyond the range of dates.
pub proof fn law_new_items_answer(params: NewItemsQueryParams, replies: Seq<Reply>)
    ensures
        ({
            let step = replay(resume_new_items(), new_items_start(params), replies);
            let done = exchanges(resume_new_items(), new_items_start(params), replies);
            &&& step is Ask ==> done.len() == replies.len()
            &&& forall|i: int| 0 <= i < done.len() ==> (#[trigger] done[i]).1 == replies[i]
            &&& exists|cuts: Seq<int>, entries: Seq<ItemSimpleView>| #[trigger]
                new_items_come_to(step, done, params, cuts, entries)
        }),
{
    lemma_exchanges(resume_new_items(), new_items_start(params), replies);
    let found = lemma_new_items(params, replies);
}

/// What a request for the newest items of a root category has come to, where the search
/// for that category took `k` exchanges: once it has found it, it asks for the ids of the
/// categories below it, then for the rows of those categories on the page that the URI
/// names, and lists those that come back under the name of the root category.
pub open spec fn category_items_come_to<S>(
    step: StepView<S>,
    done: Seq<(RequestView, Reply)>,
    root_category_id: u32,
    uri: Seq<char>,
    k: int,
    root: Category,
    cuts: Seq<int>,
    entries: Seq<ItemSimpleView>,
) -> bool {
    ||| step matches StepView::Ask(_, request) && search_asks(done, root_category_id, request)
    ||| search_fails(done, root_category_id) && (step matches StepView::Answer(Err(e))
        && e.status is BadRequest && e.message == "category not found"@)
    ||| {
        &&& 0 < k <= done.len()
        &&& search_finds(done.take(k), root_category_id, root)
        &&& if done.len() == k {
            step matches StepView::Ask(_, request) && request == category_ids_request(root.id)
        } else {
            &&& done[k].0 == category_ids_request(root.id)
            &&& match done[k].1 {
                Reply::CategoryIds(Ok(ids)) => match uri_position(uri) {
                    None => done.len() == k + 1 && step is Abort,
                    Some(Err(wrong)) => done.len() == k + 1 && (step matches StepView::Answer(
                        Err(e),
                    ) && e == wrong),
                    Some(Ok(position)) => match cursor_for(position) {
                        None => done.len() == k + 1 && step is Abort,
                        Some(cursor) => if done.len() == k + 1 {
                            step matches StepView::Ask(_, request) && request
                                == category_items_request(ids@, cursor)
                        } else {
                            &&& done[k + 1].0 == category_items_request(ids@, cursor)
                            &&& match done[k + 1].1 {
                                Reply::Items(Ok(rows)) => list_comes_to(
                                    step,
                                    done.skip(k + 2),
                                    cuts,
                                    rows@,
                                    entries,
                                    Some(root.id),
                                    Some(root.category_name),
                                ),
                                _ => done.len() == k + 2 && fails_with_db_error(step),
                            }
                        },
                    },
                },
                _ => done.len() == k + 1 && fails_with_db_error(step),
            }
        }
    }
}

/// The same, with the state of the handler.
spec fn category_items_books(
    step: StepView<CategoryItemsState>,
    done: Seq<(RequestView, Reply)>,
    root_category_id: u32,
    uri: Seq<char>,
    k: int,
    root: Category,
    cuts: Seq<int>,
    entries: Seq<ItemSimpleView>,
    list: StepView<ListingView>,
) -> bool {
    &&& category_items_come_to(step, done, root_category_id, uri, k, root, cuts, entries)
    &&& match step {
        StepView::Ask(CategoryItemsState::Root(own_uri, lookup), request) => {
            &&& own_uri == uri
            &&& search_at(lookup, done)
            &&& search_asks(done, root_category_id, request)
        },
        StepView::Ask(CategoryItemsState::Ids(own_uri, own_root), request) => {
            &&& own_uri == uri
            &&& own_root == root
            &&& 0 < k == done.len()
            &&& search_finds(done.take(k), root_category_id, root)
            &&& request == category_ids_request(root.id)
        },
        StepView::Ask(CategoryItemsState::Rows(own_root), request) => {
            &&& own_root == root
            &&& 0 < k == done.len() - 1
            &&& search_finds(done.take(k), root_category_id, root)
            &&& done[k].0 == category_ids_request(root.id)
            &&& done[k].1 matches Reply::CategoryIds(Ok(ids)) && uri_position(uri) matches Some(
                Ok(position),
            ) && cursor_for(position) matches Some(cursor) && request == category_items_request(
                ids@,
                cursor,
            )
        },
        StepView::Ask(CategoryItemsState::Listing(_), request) => {
            &&& step == in_category_items(list)
            &&& 0 < k && k + 2 <= done.len()
            &&& search_finds(done.take(k), root_category_id, root)
            &&& done[k].0 == category_ids_request(root.id)
            &&& done[k].1 matches Reply::CategoryIds(Ok(ids)) && uri_position(uri) matches Some(
                Ok(position),
            ) && cursor_for(position) matches Some(cursor) && done[k + 1].0
                == category_items_request(ids@, cursor)
            &&& done[k + 1].1 matches Reply::Items(Ok(rows)) && list_books(
                list,
                done.skip(k + 2),
                cuts,
                rows@,
                entries,
                Some(root.id),
                Some(root.category_name),
            )
        },
        _ => true,
    }
}

proof fn lemma_category_items_step(
    state: CategoryItemsState,
    request: RequestView,
    reply: Reply,
    done: Seq<(RequestView, Reply)>,
    root_category_id: u32,
    uri: Seq<char>,
    k: int,
    root: Category,
    cuts: Seq<int>,
    entries: Seq<ItemSimpleView>,
    list: StepView<ListingView>,
) -> (found: (int, Category, Seq<int>, Seq<ItemSimpleView>, StepView<ListingView>))
    requires
        category_items_books(
            StepView::Ask(state, request),
            done,
            root_category_id,
            uri,
            k,
            root,
            cuts,
            entries,
            list,
        ),
    ensures
        category_items_books(
            category_items_step(state, reply),
            done.push((request, reply)),
            root_category_id,
            uri,
            found.0,
            found.1,
            found.2,
            found.3,
            found.4,
        ),
{
    let now = done.push((request, reply));
    match state {
        CategoryItemsState::Root(_, lookup) => {
            law_search_step(lookup, request, reply, done, root_category_id);
            if let CategoryStepView::Found(Ok(category)) = category_step(
                lookup,
                reply.category(),
            ) {
                assert(now.take(now.len() as int) =~= now);
                (now.len() as int, category, cuts, entries, list)
            } else {
                (k, root, cuts, entries, list)
            }
        },
        CategoryItemsState::Ids(_, _) => {
            assert(now.take(k) =~= done.take(k));
            (k, root, cuts, entries, list)
        },
        CategoryItemsState::Rows(_) => {
            assert(now.take(k) =~= done.take(k));
            assert(now[k] == done[k]);
            if let Reply::Items(Ok(rows)) = reply {
                let none = Seq::<(RequestView, Reply)>::empty();
                assert(now.skip(k + 2) =~= none);
                assert(none.skip(0) =~= none);
                (
                    k,
                    root,
                    seq![0int],
                    Seq::empty(),
                    listing_next(listing_of(Some(root.id), Some(root.category_name), rows@)),
                )
            } else {
                (k, root, cuts, entries, list)
            }
        },
        CategoryItemsState::Listing(listing) => {
            assert(now.take(k) =~= done.take(k));
            assert(now[k] == done[k] && now[k + 1] == done[k + 1]);
            assert(now.skip(k + 2) =~= done.skip(k + 2).push((request, reply)));
            let rows = done[k + 1].1->Items_0->Ok_0@;
            let (more_cuts, more) = lemma_list_step(
                listing,
                request,
                reply,
                done.skip(k + 2),
                cuts,
                rows,
                entries,
                Some(root.id),
                Some(root.category_name),
            );
            (k, root, more_cuts, more, listing_step(listing, reply))
        },
    }
}

proof fn lemma_category_items(
    root_category_id: u32,
    uri: Seq<char>,
    replies: Seq<Reply>,
) -> (found: (int, Category, Seq<int>, Seq<ItemSimpleView>, StepView<ListingView>))
    ensures
        category_items_books(
            replay(resume_category_items(), category_items_start(root_category_id, uri), replies),
            exchanges(
                resume_category_items(),
                category_items_start(root_category_id, uri),
                replies,
            ),
            root_category_id,
            uri,
            found.0,
            found.1,
            found.2,
            found.3,
            found.4,
        ),
    decreases replies.len(),
{
    let start = category_items_start(root_category_id, uri);
    if replies.len() == 0 {
        (0, arbitrary(), seq![0int], Seq::empty(), StepView::Abort)
    } else {
        let before = replies.drop_last();
        let (k, root, cuts, entries, list) = lemma_category_items(root_category_id, uri, before);
        if let StepView::Ask(state, request) = replay(resume_category_items(), start, before) {
            lemma_category_items_step(
                state,
                request,
                replies.last(),
                exchanges(resume_category_items(), start, before),
                root_category_id,
                uri,
                k,
                root,
                cuts,
                entries,
                list,
            )
        } else {
            (k, root, cuts, entries, list)
        }
    }
}

/// A request for the newest items of a root category looks that category up, then the ids
/// of the categories below it, then the rows of those categories on the page that its URI
/// names, and lists the rows that come back under the id and the name of the root
/// category. What fails first decides the error. It gets no answer where its URI is no
/// URL, and where its time lies beyond the range of dates.
pub proof fn law_category_items_answer(
    root_category_id: u32,
    uri: Seq<char>,
    replies: Seq<Reply>,
)
    ensures
        ({
            let start = category_items_start(root_category_id, uri);
            let step = replay(resume_category_items(), start, replies);
            let done = exchanges(resume_category_items(), start, replies);
            &&& step is Ask ==> done.len() == replies.len()
            &&& forall|i: int| 0 <= i < done.len() ==> (#[trigger] done[i]).1 == replies[i]
            &&& exists|k: int, root: Category, cuts: Seq<int>, entries: Seq<ItemSimpleView>|
                #[trigger] category_items_come_to(
                    step,
                    done,
                    root_category_id,
                    uri,
                    k,
                    root,
                    cuts,
                    entries,
                )
        }),
{
    lemma_exchanges(
        resume_category_items(),
        category_items_start(root_category_id, uri),
        replies,
    );
    let found = lemma_category_items(root_category_id, uri, replies);
}

} // verus!
