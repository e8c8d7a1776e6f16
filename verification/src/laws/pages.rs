//! How the pages of a list continue each other.
use vstd::prelude::*;

use crate::category_items::{category_ids_request, category_items_request};
use crate::datetime::{law_stored_moment_round_trip, stored, Civil};
use crate::error::ErrorView;
use crate::items::{new_items_request, shown_item, NewItemsState};
use crate::laws::listing::{category_page_rows, list_answer, new_items_end};
use crate::laws::run::World;
use crate::model::{Category, Item, NewItemsQueryParams, UserSimple, ITEMS_PER_PAGE};
use crate::paging::{cursor_for, uri_position, CursorView, Position};
use crate::protocol::{Failure, RequestView, StepView};

verus! {

/// `a` lies before `b`.
pub open spec fn earlier(a: Civil, b: Civil) -> bool {
    a.unix_seconds() < b.unix_seconds() || (a.unix_seconds() == b.unix_seconds() && a.nanosecond
        < b.nanosecond)
}

/// The condition that the statements for a next page put on a row: it is older than the
/// given time, or no newer and with a smaller id.
pub open spec fn follows(row: Item, created_at: Civil, id: i64) -> bool {
    earlier(row.created_at@, created_at) || (!earlier(created_at, row.created_at@) && row.id < id)
}

/// The rows stand in the order that the statements ask for: the newest first, of the same
/// time the one with the greatest id.
pub open spec fn newest_first(rows: Seq<Item>) -> bool {
    forall|i: int, j: int|
        0 <= i < j < rows.len() ==> follows(
            #[trigger] rows[j],
            (#[trigger] rows[i]).created_at@,
            rows[i].id,
        )
}

/// The first rows, one more than a page holds.
pub open spec fn page_rows(rows: Seq<Item>) -> Seq<Item> {
    if rows.len() > ITEMS_PER_PAGE + 1 {
        rows.take(ITEMS_PER_PAGE + 1)
    } else {
        rows
    }
}

/// The database answers the requests for the pages of `rows` as their statements say.
pub open spec fn serves(
    world: World,
    request: spec_fn(CursorView) -> RequestView,
    rows: Seq<Item>,
) -> bool {
    &&& world(request(CursorView::FirstPage)).items() matches Ok(found) && found@ == page_rows(rows)
    &&& forall|created_at: Civil, id: i64| #[trigger]
        world(request(CursorView::After(created_at, id))).items() matches Ok(found) && found@
            == page_rows(rows.filter(|row: Item| follows(row, created_at, id)))
}

/// The requests for the pages of the newest items.
pub open spec fn new_items_pages() -> spec_fn(CursorView) -> RequestView {
    |cursor: CursorView| new_items_request(cursor)
}

/// The requests for the pages of the newest items of some categories.
pub open spec fn category_items_pages(category_ids: Seq<u32>) -> spec_fn(CursorView) -> RequestView {
    |cursor: CursorView| category_items_request(category_ids, cursor)
}

/// Of rows in order, exactly those after a row follow it.
proof fn lemma_followers(rows: Seq<Item>, m: int, k: int)
    requires
        newest_first(rows),
        0 < m <= rows.len(),
        0 <= k <= rows.len(),
    ensures
        ({
            let last = rows[m - 1];
            rows.take(k).filter(|row: Item| follows(row, last.created_at@, last.id)) == if k <= m {
                Seq::empty()
            } else {
                rows.subrange(m, k)
            }
        }),
    decreases k,
{
    reveal(Seq::filter);
    let last = rows[m - 1];
    let follower = |row: Item| follows(row, last.created_at@, last.id);
    if k > 0 {
        lemma_followers(rows, m, k - 1);
        assert(rows.take(k).drop_last() =~= rows.take(k - 1));
        let row = rows[k - 1];
        assert(rows.take(k).last() == row);
        if k > m {
            assert(follower(row));
            if k - 1 > m {
                assert(rows.subrange(m, k) =~= rows.subrange(m, k - 1).push(row));
            } else {
                assert(rows.subrange(m, k) =~= Seq::empty().push(row));
            }
        } else if k < m {
            assert(follows(last, row.created_at@, row.id));
            assert(!follower(row));
        }
    }
}

/// The pages of a list continue each other without a gap and without a repetition. Where
/// the first `m` rows have been shown, the id and the time that the list shows of the last
/// of them ask for the rows from `m` on.
pub proof fn law_pages_continue(
    world: World,
    request: spec_fn(CursorView) -> RequestView,
    rows: Seq<Item>,
    m: int,
    seller: UserSimple,
    category: Category,
)
    requires
        serves(world, request, rows),
        newest_first(rows),
        0 < m <= rows.len(),
        stored(rows[m - 1].created_at@),
        rows[m - 1].created_at@.nanosecond == 0,
        rows[m - 1].created_at@.unix_seconds() > 0,
        rows[m - 1].id > 0,
    ensures
        ({
            let item = shown_item(rows[m - 1], seller, category);
            let position = Position { item_id: item.id, created_at: item.created_at as i64 };
            cursor_for(position) matches Some(cursor) && (world(request(cursor)).items() matches Ok(
                found,
            ) && found@ == page_rows(rows.skip(m)))
        }),
{
    let last = rows[m - 1];
    law_stored_moment_round_trip(last.created_at@);
    lemma_followers(rows, m, rows.len() as int);
    assert(rows.take(rows.len() as int) =~= rows);
    let rest = rows.filter(|row: Item| follows(row, last.created_at@, last.id));
    assert(rest =~= rows.skip(m));
    assert(world(request(CursorView::After(last.created_at@, last.id))).items() matches Ok(found)
        && found@ == page_rows(rest));
}

/// A list of the newest items begins with the first rows, and a request with the id and
/// the time of the last row that was shown goes on from there.
pub proof fn law_new_items_continue(
    world: World,
    rows: Seq<Item>,
    m: int,
    seller: UserSimple,
    category: Category,
)
    requires
        serves(world, new_items_pages(), rows),
        newest_first(rows),
        0 < m <= rows.len(),
        stored(rows[m - 1].created_at@),
        rows[m - 1].created_at@.nanosecond == 0,
        rows[m - 1].created_at@.unix_seconds() > 0,
        rows[m - 1].id > 0,
    ensures
        ({
            let item = shown_item(rows[m - 1], seller, category);
            let first = NewItemsQueryParams { item_id: None, created_at: None };
            let next = NewItemsQueryParams {
                item_id: Some(item.id),
                created_at: Some(item.created_at as i64),
            };
            &&& new_items_end(world, first) == StepView::<NewItemsState>::Answer(
                list_answer(world, None, None, page_rows(rows)),
            )
            &&& new_items_end(world, next) == StepView::<NewItemsState>::Answer(
                list_answer(world, None, None, page_rows(rows.skip(m))),
            )
        }),
{
    law_pages_continue(world, new_items_pages(), rows, m, seller, category);
}

/// The same of a list of the newest items of a root category, for a request whose URI names
/// the id and the time of the last row that was shown.
pub proof fn law_category_items_continue(
    world: World,
    root: Category,
    category_ids: Vec<u32>,
    rows: Seq<Item>,
    m: int,
    seller: UserSimple,
    category: Category,
    uri: Seq<char>,
)
    requires
        world(category_ids_request(root.id)).category_ids() == Ok::<Vec<u32>, Failure>(
            category_ids,
        ),
        serves(world, category_items_pages(category_ids@), rows),
        newest_first(rows),
        0 < m <= rows.len(),
        stored(rows[m - 1].created_at@),
        rows[m - 1].created_at@.nanosecond == 0,
        rows[m - 1].created_at@.unix_seconds() > 0,
        rows[m - 1].id > 0,
        ({
            let item = shown_item(rows[m - 1], seller, category);
            let position = Position { item_id: item.id, created_at: item.created_at as i64 };
            uri_position(uri) == Some(Ok::<Position, ErrorView>(position))
        }),
    ensures
        category_page_rows(world, root, uri) == Some(
            Ok::<Seq<Item>, Failure>(page_rows(rows.skip(m))),
        ),
{
    law_pages_continue(
        world,
        category_items_pages(category_ids@),
        rows,
        m,
        seller,
        category,
    );
}

} // verus!
