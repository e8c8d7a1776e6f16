//! Reading a list from its first page to its last.
use vstd::prelude::*;

use crate::category_items::category_ids_request;
use crate::datetime::stored;
use crate::error::ErrorView;
use crate::items::{page, params_position};
use crate::laws::category::category_in;
use crate::laws::listing::{category_items_end, list_answer, new_items_end, shown_row};
use crate::laws::pages::{
    category_items_pages, law_pages_continue, new_items_pages, newest_first, page_rows, serves,
};
use crate::laws::run::World;
use crate::model::{
    Category, Item, ItemSimpleView, NewItemsQueryParams, NewItemsView, ITEMS_PER_PAGE,
};
use crate::paging::{cursor_for, uri_position, CursorView, Position};
use crate::protocol::{BodyView, Failure, StepView};

verus! {

/// The pages that a reader gets who begins with the request `ask` and goes on, while a
/// page says that there is a next one, with the request that its last entry leads to; at
/// most `n` pages, and none after a request that fails.
pub open spec fn pages_read<A>(
    page_at: spec_fn(A) -> Option<NewItemsView>,
    next: spec_fn(ItemSimpleView) -> A,
    ask: A,
    n: nat,
) -> Seq<NewItemsView>
    decreases n,
{
    if n == 0 {
        Seq::empty()
    } else {
        match page_at(ask) {
            Some(shown) => seq![shown] + if shown.has_next {
                pages_read(page_at, next, next(shown.items.last()), (n - 1) as nat)
            } else {
                Seq::empty()
            },
            None => Seq::empty(),
        }
    }
}

/// The entries of some pages, one page after the other.
pub open spec fn entries(pages: Seq<NewItemsView>) -> Seq<ItemSimpleView>
    decreases pages.len(),
{
    if pages.len() == 0 {
        Seq::empty()
    } else {
        pages.first().items + entries(pages.drop_first())
    }
}

/// The pages are the whole list of `items`: together they hold each entry once and in
/// order, all but the last are full and say that there is a next one, and the last says
/// that there is none.
pub open spec fn whole_list(pages: Seq<NewItemsView>, items: Seq<ItemSimpleView>) -> bool {
    &&& entries(pages) == items
    &&& pages.len() > 0
    &&& forall|i: int|
        0 <= i < pages.len() - 1 ==> (#[trigger] pages[i]).has_next && pages[i].items.len()
            == ITEMS_PER_PAGE
    &&& !pages.last().has_next
}

/// The pages all name the given root category.
pub open spec fn all_under(
    pages: Seq<NewItemsView>,
    root_category_id: Option<u32>,
    root_category_name: Option<String>,
) -> bool {
    forall|i: int|
        0 <= i < pages.len() ==> (#[trigger] pages[i]).root_category_id == root_category_id
            && pages[i].root_category_name == root_category_name
}

/// The page that a list of `items` shows of those from `m` on.
spec fn page_from(
    root_category_id: Option<u32>,
    root_category_name: Option<String>,
    items: Seq<ItemSimpleView>,
    m: int,
) -> NewItemsView {
    page(root_category_id, root_category_name, items.skip(m))
}

/// Where each request is answered with the page that it asks for, reading ends with the
/// whole list.
proof fn lemma_pages_read<A>(
    page_at: spec_fn(A) -> Option<NewItemsView>,
    next: spec_fn(ItemSimpleView) -> A,
    ask: A,
    root_category_id: Option<u32>,
    root_category_name: Option<String>,
    items: Seq<ItemSimpleView>,
    k: nat,
    n: nat,
)
    requires
        k == 0 || k * ITEMS_PER_PAGE < items.len(),
        n > 0,
        (k + n) * ITEMS_PER_PAGE >= items.len(),
        page_at(ask) == Some(
            page_from(root_category_id, root_category_name, items, k * ITEMS_PER_PAGE),
        ),
        forall|j: nat|
            0 < j && j * ITEMS_PER_PAGE < items.len() ==> page_at(
                next(#[trigger] items[j * ITEMS_PER_PAGE - 1]),
            ) == Some(page_from(root_category_id, root_category_name, items, j * ITEMS_PER_PAGE)),
    ensures
        whole_list(pages_read(page_at, next, ask, n), items.skip((k * ITEMS_PER_PAGE) as int)),
        all_under(pages_read(page_at, next, ask, n), root_category_id, root_category_name),
    decreases n,
{
    let m = (k * ITEMS_PER_PAGE) as int;
    let shown = page_from(root_category_id, root_category_name, items, m);
    let pages = pages_read(page_at, next, ask, n);
    let rest = items.skip(m);
    if shown.has_next {
        let last = m + ITEMS_PER_PAGE - 1;
        assert((k + 1) * ITEMS_PER_PAGE == m + ITEMS_PER_PAGE) by (nonlinear_arith)
            requires
                m == k * ITEMS_PER_PAGE,
        ;
        assert(shown.items.last() == items[last]);
        assert(items[(k + 1) as nat * ITEMS_PER_PAGE - 1] == items[last]);
        let after = next(items[last]);
        lemma_pages_read(
            page_at,
            next,
            after,
            root_category_id,
            root_category_name,
            items,
            k + 1,
            (n - 1) as nat,
        );
        let others = pages_read(page_at, next, after, (n - 1) as nat);
        assert(pages == seq![shown] + others);
        assert(pages.drop_first() =~= others);
        assert(rest =~= shown.items + items.skip(last + 1));
        assert(pages.last() == others.last());
        assert forall|i: int| 0 <= i < pages.len() - 1 implies (#[trigger] pages[i]).has_next
            && pages[i].items.len() == ITEMS_PER_PAGE by {
            if i > 0 {
                assert(pages[i] == others[i - 1]);
            }
        }
    } else {
        assert(pages =~= seq![shown]);
        assert(pages.drop_first() =~= Seq::empty());
        assert(entries(pages.drop_first()) =~= Seq::empty());
        assert(entries(pages) =~= rest);
    }
}

/// The id and the time that a list shows of a row lead to the rows after it.
pub open spec fn leads_on(row: Item) -> bool {
    &&& stored(row.created_at@)
    &&& row.created_at@.nanosecond == 0
    &&& row.created_at@.unix_seconds() > 0
    &&& row.id > 0
}

/// The rows at which full pages end, and others follow, lead on.
pub open spec fn page_ends_lead_on(rows: Seq<Item>) -> bool {
    forall|j: nat|
        0 < j && j * ITEMS_PER_PAGE < rows.len() ==> leads_on(
            #[trigger] rows[j * ITEMS_PER_PAGE - 1],
        )
}

/// What a list shows of rows that can all be shown.
pub open spec fn shown_rows(world: World, rows: Seq<Item>) -> Seq<ItemSimpleView> {
    rows.map_values(|row: Item| shown_row(world, row)->Ok_0)
}

/// The page that a handler comes to, where it comes to one.
pub open spec fn page_of<S>(end: StepView<S>) -> Option<NewItemsView> {
    match end {
        StepView::Answer(Ok(BodyView::NewItems(shown))) => Some(shown),
        _ => None,
    }
}

/// The rows of a page give the page.
proof fn lemma_page_answer(
    world: World,
    root_category_id: Option<u32>,
    root_category_name: Option<String>,
    rows: Seq<Item>,
    m: int,
)
    requires
        0 <= m <= rows.len(),
        forall|i: int| 0 <= i < rows.len() ==> shown_row(world, #[trigger] rows[i]) is Ok,
    ensures
        list_answer(world, root_category_id, root_category_name, page_rows(rows.skip(m))) == Ok::<
            BodyView,
            ErrorView,
        >(
            BodyView::NewItems(
                page_from(root_category_id, root_category_name, shown_rows(world, rows), m),
            ),
        ),
{
    let fetched = page_rows(rows.skip(m));
    assert forall|i: int| 0 <= i < fetched.len() implies shown_row(
        world,
        #[trigger] fetched[i],
    ) is Ok by {
        assert(fetched[i] == rows[m + i]);
    }
    assert(page(root_category_id, root_category_name, shown_rows(world, fetched)).items
        =~= page_from(root_category_id, root_category_name, shown_rows(world, rows), m).items);
}

/// The page of the newest items that a request is answered with, where it is answered with
/// one.
pub open spec fn new_items_page(world: World) -> spec_fn(NewItemsQueryParams) -> Option<
    NewItemsView,
> {
    |params: NewItemsQueryParams| page_of(new_items_end(world, params))
}

/// The request for the newest items after an entry.
pub open spec fn new_items_after() -> spec_fn(ItemSimpleView) -> NewItemsQueryParams {
    |item: ItemSimpleView|
        NewItemsQueryParams {
            item_id: Some(item.id),
            created_at: Some(item.created_at as i64),
        }
}

/// A reader of the newest items who follows the last entry of each page comes to an end
/// and has then seen the whole list: each row once and in order, on full pages but for
/// the last.
pub proof fn law_new_items_are_read_whole(
    world: World,
    rows: Seq<Item>,
    first: NewItemsQueryParams,
    n: nat,
)
    requires
        serves(world, new_items_pages(), rows),
        newest_first(rows),
        page_ends_lead_on(rows),
        forall|i: int| 0 <= i < rows.len() ==> shown_row(world, #[trigger] rows[i]) is Ok,
        cursor_for(params_position(first)) == Some(CursorView::FirstPage),
        n > 0,
        n * ITEMS_PER_PAGE >= rows.len(),
    ensures
        whole_list(
            pages_read(new_items_page(world), new_items_after(), first, n),
            shown_rows(world, rows),
        ),
{
    let page_at = new_items_page(world);
    let next = new_items_after();
    let items = shown_rows(world, rows);
    assert(rows.skip(0) =~= rows);
    lemma_page_answer(world, None, None, rows, 0);
    assert forall|j: nat| 0 < j && j * ITEMS_PER_PAGE < items.len() implies page_at(
        next(#[trigger] items[j * ITEMS_PER_PAGE - 1]),
    ) == Some(page_from(None, None, items, j * ITEMS_PER_PAGE)) by {
        let m = (j * ITEMS_PER_PAGE) as int;
        let last = rows[m - 1];
        assert(leads_on(rows[j * ITEMS_PER_PAGE - 1]));
        assert(shown_row(world, last) is Ok);
        law_pages_continue(
            world,
            new_items_pages(),
            rows,
            m,
            items[m - 1].seller,
            items[m - 1].category,
        );
        lemma_page_answer(world, None, None, rows, m);
    }
    lemma_pages_read(page_at, next, first, None, None, items, 0, n);
    assert(items.skip(0) =~= items);
}

/// The page of the newest items of a root category that a request is answered with, where
/// it is answered with one.
pub open spec fn category_items_page(world: World, root_category_id: u32) -> spec_fn(
    Seq<char>,
) -> Option<NewItemsView> {
    |uri: Seq<char>| page_of(category_items_end(world, root_category_id, uri))
}

/// The same of the newest items of a root category, for a reader who writes the id and
/// the time of the last entry of each page into the URI of the next request.
pub proof fn law_category_items_are_read_whole(
    world: World,
    root_category_id: u32,
    root: Category,
    category_ids: Vec<u32>,
    rows: Seq<Item>,
    first: Seq<char>,
    next: spec_fn(ItemSimpleView) -> Seq<char>,
    n: nat,
)
    requires
        category_in(world, root_category_id) == Ok::<Category, Failure>(root),
        world(category_ids_request(root.id)).category_ids() == Ok::<Vec<u32>, Failure>(
            category_ids,
        ),
        serves(world, category_items_pages(category_ids@), rows),
        newest_first(rows),
        page_ends_lead_on(rows),
        forall|i: int| 0 <= i < rows.len() ==> shown_row(world, #[trigger] rows[i]) is Ok,
        uri_position(first) matches Some(Ok(position)) && cursor_for(position) == Some(
            CursorView::FirstPage,
        ),
        forall|item: ItemSimpleView|
            uri_position(#[trigger] next(item)) == Some(
                Ok::<Position, ErrorView>(
                    Position { item_id: item.id, created_at: item.created_at as i64 },
                ),
            ),
        n > 0,
        n * ITEMS_PER_PAGE >= rows.len(),
    ensures
        ({
            let pages = pages_read(category_items_page(world, root_category_id), next, first, n);
            &&& whole_list(pages, shown_rows(world, rows))
            &&& all_under(pages, Some(root.id), Some(root.category_name))
        }),
{
    let page_at = category_items_page(world, root_category_id);
    let id = Some(root.id);
    let name = Some(root.category_name);
    let items = shown_rows(world, rows);
    assert(rows.skip(0) =~= rows);
    lemma_page_answer(world, id, name, rows, 0);
    assert forall|j: nat| 0 < j && j * ITEMS_PER_PAGE < items.len() implies page_at(
        next(#[trigger] items[j * ITEMS_PER_PAGE - 1]),
    ) == Some(page_from(id, name, items, j * ITEMS_PER_PAGE)) by {
        let m = (j * ITEMS_PER_PAGE) as int;
        let last = rows[m - 1];
        assert(leads_on(rows[j * ITEMS_PER_PAGE - 1]));
        assert(shown_row(world, last) is Ok);
        law_pages_continue(
            world,
            category_items_pages(category_ids@),
            rows,
            m,
            items[m - 1].seller,
            items[m - 1].category,
        );
        lemma_page_answer(world, id, name, rows, m);
    }
    lemma_pages_read(page_at, next, first, id, name, items, 0, n);
    assert(items.skip(0) =~= items);
}

} // verus!
