//! Handlers that only read.
use vstd::prelude::*;

use crate::category_items::{
    category_ids_request, category_items_request, category_items_start, category_items_step,
    CategoryItemsState,
};
use crate::items::{new_items_request, new_items_start, params_position};
use crate::laws::listing::{resume_category_items, resume_new_items};
use crate::laws::run::{exchanges, replay};
use crate::laws::session::{resume_reports, resume_settings};
use crate::laws::transactions::resume_transactions;
use crate::lookup::{category_request, config_request, user_request};
use crate::model::NewItemsQueryParams;
use crate::paging::{cursor_for, uri_position, CursorView};
use crate::protocol::{QueryView, Reply, RequestView, StepView, Via};
use crate::reports::{reports_request, reports_start};
use crate::settings::{categories_request, settings_start};
use crate::transactions::{
    transactions_request, transactions_start, transactions_step, TransactionsState,
};

verus! {

/// The statement is a `SELECT`.
pub open spec fn is_select(query: QueryView) -> bool {
    "SELECT "@.is_prefix_of(query.sql)
}

/// The operation changes nothing: it reads from the session, it selects rows, or it is a
/// step of a connection or of a transaction. It runs no program, and executes no other
/// statement.
pub open spec fn only_reads(request: RequestView) -> bool {
    match request {
        RequestView::Acquire => true,
        RequestView::Begin => true,
        RequestView::Commit => true,
        RequestView::Rollback => true,
        RequestView::SessionInteger(_) => true,
        RequestView::SessionText(_) => true,
        RequestView::Items(query) => is_select(query),
        RequestView::User(query) => is_select(query),
        RequestView::Category(query) => is_select(query),
        RequestView::CategoryIds(query) => is_select(query),
        RequestView::Categories(query) => is_select(query),
        RequestView::Config(query) => is_select(query),
        RequestView::Reports(query) => is_select(query),
        RequestView::Run(_) => false,
        RequestView::Execute(_) => false,
    }
}

/// The request of a step, where it has one, only reads.
spec fn asks_to_read<S>(step: StepView<S>) -> bool {
    step matches StepView::Ask(_, request) ==> only_reads(request)
}

/// All that a handler has asked for, and asks for now, only reads.
pub open spec fn run_only_reads<S>(
    resume: spec_fn(S, Reply) -> StepView<S>,
    start: StepView<S>,
    replies: Seq<Reply>,
) -> bool {
    &&& forall|i: int|
        0 <= i < exchanges(resume, start, replies).len() ==> only_reads(
            (#[trigger] exchanges(resume, start, replies)[i]).0,
        )
    &&& replay(resume, start, replies) matches StepView::Ask(_, request) ==> only_reads(request)
}

/// A handler each of whose steps asks to read only reads.
proof fn lemma_run_only_reads<S>(
    resume: spec_fn(S, Reply) -> StepView<S>,
    start: StepView<S>,
    replies: Seq<Reply>,
)
    requires
        asks_to_read(start),
        forall|state: S, reply: Reply| asks_to_read(#[trigger] resume(state, reply)),
    ensures
        run_only_reads(resume, start, replies),
    decreases replies.len(),
{
    if replies.len() > 0 {
        lemma_run_only_reads(resume, start, replies.drop_last());
        let before = exchanges(resume, start, replies.drop_last());
        let now = exchanges(resume, start, replies);
        assert forall|i: int| 0 <= i < now.len() implies only_reads((#[trigger] now[i]).0) by {
            if i < before.len() {
                assert(now[i] == before[i]);
            }
        }
    }
}

/// The statements that no page and no cursor changes are `SELECT`s.
proof fn lemma_single_statements()
    ensures
        forall|via: Via, user_id: i64| only_reads(#[trigger] user_request(via, user_id)),
        forall|category_id: u32| only_reads(#[trigger] category_request(category_id)),
        forall|category_id: u32| only_reads(#[trigger] category_ids_request(category_id)),
        forall|name: Seq<char>| only_reads(#[trigger] config_request(name)),
        only_reads(categories_request()),
        only_reads(reports_request()),
{
    reveal_strlit("SELECT ");
    reveal_strlit("SELECT * FROM `users` WHERE `id` = ?");
    reveal_strlit("SELECT * FROM `categories` WHERE `id` = ?");
    reveal_strlit("SELECT id FROM `categories` WHERE parent_id=?");
    reveal_strlit("SELECT * FROM `configs` WHERE `name` = ?");
    reveal_strlit("SELECT * FROM categories");
    reveal_strlit("SELECT * FROM `transaction_evidences` WHERE `id` > 15007");
}

proof fn lemma_new_items_statements(cursor: CursorView)
    ensures
        only_reads(new_items_request(cursor)),
{
    reveal_strlit("SELECT ");
    reveal_strlit(
        "SELECT * FROM `items` WHERE `status` IN (?,?) AND (`created_at` < ?  OR (`created_at` <= ? AND `id` < ?)) ORDER BY `created_at` DESC, `id` DESC LIMIT ?",
    );
    reveal_strlit(
        "SELECT * FROM `items` WHERE `status` IN (?,?) ORDER BY `created_at` DESC, `id` DESC LIMIT ?",
    );
}

proof fn lemma_category_items_statements(category_ids: Seq<u32>, cursor: CursorView)
    ensures
        only_reads(category_items_request(category_ids, cursor)),
{
    reveal_strlit("SELECT ");
    reveal_strlit("SELECT * FROM `items` WHERE `status` IN (?,?) AND category_id IN (");
}

proof fn lemma_transactions_statements(user_id: i64, cursor: CursorView)
    ensures
        only_reads(transactions_request(user_id, cursor)),
{
    reveal_strlit("SELECT ");
    reveal_strlit(
        "SELECT * FROM `items` WHERE (`seller_id` = ? OR `buyer_id` = ?) AND `status` IN (?,?,?,?,?) AND (`created_at` < ?  OR (`created_at` <= ? AND `id` < ?)) ORDER BY `created_at` DESC, `id` DESC LIMIT ?",
    );
    reveal_strlit(
        "SELECT * FROM `items` WHERE (`seller_id` = ? OR `buyer_id` = ?) AND `status` IN (?,?,?,?,?) ORDER BY `created_at` DESC, `id` DESC LIMIT ?",
    );
}

/// Whatever the replies: a request for the transactions of a user only reads. Each of its
/// operations is a read from the session, a `SELECT`, or a step of its connection or
/// transaction.
pub proof fn law_transactions_only_read(uri: Seq<char>, replies: Seq<Reply>)
    ensures
        run_only_reads(resume_transactions(), transactions_start(uri), replies),
{
    lemma_single_statements();
    assert forall|state: TransactionsState, reply: Reply| asks_to_read(
        #[trigger] transactions_step(state, reply),
    ) by {
        if let StepView::Ask(TransactionsState::Rows, _) = transactions_step(state, reply) {
            if let TransactionsState::Begin(user_id, position) = state {
                lemma_transactions_statements(user_id, cursor_for(position)->Some_0);
            }
        }
    }
    lemma_run_only_reads(resume_transactions(), transactions_start(uri), replies);
}

/// Whatever the replies: a request for the newest items only reads.
pub proof fn law_new_items_only_read(params: NewItemsQueryParams, replies: Seq<Reply>)
    ensures
        run_only_reads(resume_new_items(), new_items_start(params), replies),
{
    lemma_single_statements();
    if let Some(cursor) = cursor_for(params_position(params)) {
        lemma_new_items_statements(cursor);
    }
    lemma_run_only_reads(resume_new_items(), new_items_start(params), replies);
}

/// Whatever the replies: a request for the newest items of a root category only reads.
pub proof fn law_category_items_only_read(
    root_category_id: u32,
    uri: Seq<char>,
    replies: Seq<Reply>,
)
    ensures
        run_only_reads(
            resume_category_items(),
            category_items_start(root_category_id, uri),
            replies,
        ),
{
    lemma_single_statements();
    assert forall|state: CategoryItemsState, reply: Reply| asks_to_read(
        #[trigger] category_items_step(state, reply),
    ) by {
        if let CategoryItemsState::Ids(own_uri, _) = state {
            if let Ok(category_ids) = reply.category_ids() {
                if let Some(Ok(position)) = uri_position(own_uri) {
                    lemma_category_items_statements(
                        category_ids@,
                        cursor_for(position)->Some_0,
                    );
                }
            }
        }
    }
    lemma_run_only_reads(
        resume_category_items(),
        category_items_start(root_category_id, uri),
        replies,
    );
}

/// Whatever the replies: a request for the settings only reads.
pub proof fn law_settings_only_read(replies: Seq<Reply>)
    ensures
        run_only_reads(resume_settings(), settings_start(), replies),
{
    lemma_single_statements();
    lemma_run_only_reads(resume_settings(), settings_start(), replies);
}

/// Whatever the replies: a request for the report only reads.
pub proof fn law_reports_only_read(replies: Seq<Reply>)
    ensures
        run_only_reads(resume_reports(), reports_start(), replies),
{
    lemma_single_statements();
    lemma_run_only_reads(resume_reports(), reports_start(), replies);
}

} // verus!
