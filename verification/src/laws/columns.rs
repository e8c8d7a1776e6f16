//! Columns that lists of items leave out.
use vstd::prelude::*;

use crate::category_items::{
    category_ids_request, category_items_request, category_items_start, CategoryItemsState,
};
use crate::items::{
    new_items_request, new_items_start, params_position, ListingView, NewItemsState,
};
use crate::laws::category::{category_in, category_row};
use crate::laws::listing::{
    category_items_end, fails_first_at, lemma_first_failure, list_answer, new_items_end,
    resume_category_items, resume_new_items, shown_row,
};
use crate::laws::run::{replay, World};
use crate::lookup::{category_request, user_request};
use crate::model::{Item, NewItemsQueryParams, User};
use crate::paging::{cursor_for, uri_position};
use crate::protocol::{Reply, RequestView, StepView, Via};

verus! {

/// Two users differ at most in their passwords, addresses and times.
pub open spec fn sellers_alike(a: User, b: User) -> bool {
    a == User {
        hashed_password: a.hashed_password,
        address: a.address,
        last_bump: a.last_bump,
        created_at: a.created_at,
        ..b
    }
}

/// Two rows of items differ at most in their descriptions, buyers and times of update.
pub open spec fn rows_alike(a: Item, b: Item) -> bool {
    a == Item {
        buyer_id: a.buyer_id,
        description: a.description,
        updated_at: a.updated_at,
        ..b
    }
}

/// The same of the rows of two lists, one by one.
pub open spec fn all_rows_alike(a: Seq<Item>, b: Seq<Item>) -> bool {
    a.len() == b.len() && forall|i: int|
        0 <= i < a.len() ==> rows_alike(#[trigger] a[i], #[trigger] b[i])
}

/// Two replies differ at most in columns that lists of items do not show.
pub open spec fn listed_alike(a: Reply, b: Reply) -> bool {
    match (a, b) {
        (Reply::User(Ok(user)), Reply::User(Ok(other))) => sellers_alike(user, other),
        (Reply::Items(Ok(rows)), Reply::Items(Ok(other))) => all_rows_alike(rows@, other@),
        _ => a == b,
    }
}

/// Two databases differ at most in columns that lists of items do not show.
pub open spec fn databases_alike(a: World, b: World) -> bool {
    forall|request: RequestView| listed_alike(#[trigger] a(request), b(request))
}

proof fn lemma_categories_alike(a: World, b: World, category_id: u32)
    requires
        databases_alike(a, b),
    ensures
        category_in(a, category_id) == category_in(b, category_id),
{
    let own = category_request(category_id);
    assert(listed_alike(a(own), b(own)));
    if let Ok(row) = category_row(a, category_id) {
        let parent = category_request(row.parent_id);
        assert(listed_alike(a(parent), b(parent)));
    }
}

proof fn lemma_shown_alike(a: World, b: World, row: Item, other: Item)
    requires
        databases_alike(a, b),
        rows_alike(row, other),
    ensures
        shown_row(a, row) == shown_row(b, other),
{
    let seller = user_request(Via::Pool, row.seller_id);
    assert(row.seller_id == other.seller_id);
    assert(listed_alike(a(seller), b(seller)));
    lemma_categories_alike(a, b, row.category_id);
}

/// Where not all rows can be shown, one of them is the first that cannot.
proof fn lemma_some_failure(world: World, rows: Seq<Item>, i: int) -> (k: int)
    requires
        0 <= i < rows.len(),
        shown_row(world, rows[i]) is Err,
    ensures
        fails_first_at(world, rows, k),
    decreases i,
{
    if forall|j: int| 0 <= j < i ==> shown_row(world, #[trigger] rows[j]) is Ok {
        i
    } else {
        let j = choose|j: int| 0 <= j < i && !(shown_row(world, #[trigger] rows[j]) is Ok);
        lemma_some_failure(world, rows, j)
    }
}

proof fn lemma_lists_alike(
    a: World,
    b: World,
    root_category_id: Option<u32>,
    root_category_name: Option<String>,
    rows: Seq<Item>,
    other: Seq<Item>,
)
    requires
        databases_alike(a, b),
        all_rows_alike(rows, other),
    ensures
        list_answer(a, root_category_id, root_category_name, rows) == list_answer(
            b,
            root_category_id,
            root_category_name,
            other,
        ),
{
    assert forall|i: int| 0 <= i < rows.len() implies shown_row(a, #[trigger] rows[i])
        == shown_row(b, other[i]) by {
        lemma_shown_alike(a, b, rows[i], other[i]);
    }
    assert forall|i: int| 0 <= i < other.len() implies shown_row(a, rows[i]) == shown_row(
        b,
        #[trigger] other[i],
    ) by {
        lemma_shown_alike(a, b, rows[i], other[i]);
    }
    if forall|i: int| 0 <= i < rows.len() ==> shown_row(a, #[trigger] rows[i]) is Ok {
        assert(rows.map_values(|row: Item| shown_row(a, row)->Ok_0) =~= other.map_values(
            |row: Item| shown_row(b, row)->Ok_0,
        ));
    } else {
        let i = choose|i: int| 0 <= i < rows.len() && !(shown_row(a, #[trigger] rows[i]) is Ok);
        let k = lemma_some_failure(a, rows, i);
        lemma_first_failure(a, rows, k);
        assert(shown_row(b, other[i]) is Err);
        assert(fails_first_at(b, other, k));
        lemma_first_failure(b, other, k);
    }
}

/// The rows that two like databases give are alike.
proof fn lemma_same_rows_alike(a: World, b: World, request: RequestView)
    requires
        databases_alike(a, b),
    ensures
        match (a(request).items(), b(request).items()) {
            (Ok(rows), Ok(other)) => all_rows_alike(rows@, other@),
            (Err(_), Err(_)) => true,
            _ => false,
        },
{
    assert(listed_alike(a(request), b(request)));
}

/// Two databases that differ at most in the passwords, addresses and times of users, and
/// in the descriptions, buyers and times of update of items, give the same answer to a
/// request for the newest items.
pub proof fn law_new_items_of_like_databases(a: World, b: World, params: NewItemsQueryParams)
    requires
        databases_alike(a, b),
    ensures
        new_items_end(a, params) == new_items_end(b, params),
{
    if let Some(cursor) = cursor_for(params_position(params)) {
        let request = new_items_request(cursor);
        lemma_same_rows_alike(a, b, request);
        if let (Ok(rows), Ok(other)) = (a(request).items(), b(request).items()) {
            lemma_lists_alike(a, b, None, None, rows@, other@);
        }
    }
}

/// The same of a request for the newest items of a root category.
pub proof fn law_category_items_of_like_databases(
    a: World,
    b: World,
    root_category_id: u32,
    uri: Seq<char>,
)
    requires
        databases_alike(a, b),
    ensures
        category_items_end(a, root_category_id, uri) == category_items_end(
            b,
            root_category_id,
            uri,
        ),
{
    lemma_categories_alike(a, b, root_category_id);
    if let Ok(root) = category_in(a, root_category_id) {
        let ids = category_ids_request(root.id);
        assert(listed_alike(a(ids), b(ids)));
        if let Ok(category_ids) = a(ids).category_ids() {
            if let Some(Ok(position)) = uri_position(uri) {
                if let Some(cursor) = cursor_for(position) {
                    let request = category_items_request(category_ids@, cursor);
                    lemma_same_rows_alike(a, b, request);
                    if let (Ok(rows), Ok(other)) = (a(request).items(), b(request).items()) {
                        lemma_lists_alike(
                            a,
                            b,
                            Some(root.id),
                            Some(root.category_name),
                            rows@,
                            other@,
                        );
                    }
                }
            }
        }
    }
}

/// Two lists under construction differ at most in columns that they do not show.
spec fn lists_alike(a: ListingView, b: ListingView) -> bool {
    &&& a == ListingView { rows: a.rows, ..b }
    &&& all_rows_alike(a.rows, b.rows)
    &&& a.shown.len() < a.rows.len()
}

spec fn new_items_alike(a: StepView<NewItemsState>, b: StepView<NewItemsState>) -> bool {
    match (a, b) {
        (
            StepView::Ask(NewItemsState::Listing(list), request),
            StepView::Ask(NewItemsState::Listing(other), other_request),
        ) => request == other_request && lists_alike(list, other),
        _ => a == b,
    }
}

spec fn category_items_alike(
    a: StepView<CategoryItemsState>,
    b: StepView<CategoryItemsState>,
) -> bool {
    match (a, b) {
        (
            StepView::Ask(CategoryItemsState::Listing(list), request),
            StepView::Ask(CategoryItemsState::Listing(other), other_request),
        ) => request == other_request && lists_alike(list, other),
        _ => a == b,
    }
}

/// The replies of two runs differ at most in columns that lists of items do not show.
pub open spec fn replies_alike(a: Seq<Reply>, b: Seq<Reply>) -> bool {
    a.len() == b.len() && forall|i: int| 0 <= i < a.len() ==> listed_alike(#[trigger] a[i], b[i])
}

/// Two handlers ask for the same, or have come to the same end.
pub open spec fn same_outside<S>(a: StepView<S>, b: StepView<S>) -> bool {
    match (a, b) {
        (StepView::Ask(_, request), StepView::Ask(_, other)) => request == other,
        _ => a == b,
    }
}

proof fn lemma_earlier_replies_alike(a: Seq<Reply>, b: Seq<Reply>)
    requires
        replies_alike(a, b),
        a.len() > 0,
    ensures
        replies_alike(a.drop_last(), b.drop_last()),
        listed_alike(a.last(), b.last()),
{
    assert forall|i: int| 0 <= i < a.len() - 1 implies listed_alike(
        #[trigger] a.drop_last()[i],
        b.drop_last()[i],
    ) by {
        assert(listed_alike(a[i], b[i]));
    }
    assert(listed_alike(a[a.len() - 1], b[a.len() - 1]));
}

proof fn lemma_new_items_alike(params: NewItemsQueryParams, a: Seq<Reply>, b: Seq<Reply>)
    requires
        replies_alike(a, b),
    ensures
        new_items_alike(
            replay(resume_new_items(), new_items_start(params), a),
            replay(resume_new_items(), new_items_start(params), b),
        ),
    decreases a.len(),
{
    if a.len() > 0 {
        lemma_earlier_replies_alike(a, b);
        lemma_new_items_alike(params, a.drop_last(), b.drop_last());
    }
}

/// Whatever the replies: the columns that lists of items leave out leave no trace in the
/// answer to a request for the newest items, nor in what is asked for on the way.
pub proof fn law_new_items_leave_columns_out(
    params: NewItemsQueryParams,
    a: Seq<Reply>,
    b: Seq<Reply>,
)
    requires
        replies_alike(a, b),
    ensures
        same_outside(
            replay(resume_new_items(), new_items_start(params), a),
            replay(resume_new_items(), new_items_start(params), b),
        ),
{
    lemma_new_items_alike(params, a, b);
}

proof fn lemma_category_items_alike(
    root_category_id: u32,
    uri: Seq<char>,
    a: Seq<Reply>,
    b: Seq<Reply>,
)
    requires
        replies_alike(a, b),
    ensures
        category_items_alike(
            replay(resume_category_items(), category_items_start(root_category_id, uri), a),
            replay(resume_category_items(), category_items_start(root_category_id, uri), b),
        ),
    decreases a.len(),
{
    if a.len() > 0 {
        lemma_earlier_replies_alike(a, b);
        lemma_category_items_alike(root_category_id, uri, a.drop_last(), b.drop_last());
    }
}

/// The same of a request for the newest items of a root category.
pub proof fn law_category_items_leave_columns_out(
    root_category_id: u32,
    uri: Seq<char>,
    a: Seq<Reply>,
    b: Seq<Reply>,
)
    requires
        replies_alike(a, b),
    ensures
        same_outside(
            replay(resume_category_items(), category_items_start(root_category_id, uri), a),
            replay(resume_category_items(), category_items_start(root_category_id, uri), b),
        ),
{
    lemma_category_items_alike(root_category_id, uri, a, b);
}

} // verus!
