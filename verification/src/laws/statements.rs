//! The statements that the handlers send to the database.
use vstd::prelude::*;

use crate::category_items::{
    category_ids_request, category_items_request, category_items_start, category_items_step,
    CategoryItemsState,
};
use crate::initialize::{initialize_start, initialize_step, store_request, InitializeState};
use crate::items::{new_items_request, new_items_start, new_items_step, NewItemsState};
use crate::lookup::{category_request, config_request, user_request};
use crate::model::NewItemsQueryParams;
use crate::paging::CursorView;
use crate::protocol::{Reply, RequestView, StepView, Via};
use crate::reports::{reports_request, reports_start};
use crate::settings::{categories_request, settings_start, settings_step, SettingsState};
use crate::text::{comma_list, decimal, digit};
use crate::transactions::{
    transactions_request, transactions_start, transactions_step, TransactionsState,
};

verus! {

/// The number of `?` among the first `n` characters of a text.
pub open spec fn marks(text: Seq<char>, n: nat) -> nat
    decreases n,
{
    if n == 0 {
        0
    } else {
        marks(text, (n - 1) as nat) + if text[n - 1] == '?' {
            1nat
        } else {
            0nat
        }
    }
}

/// The number of `?` in a text.
pub open spec fn all_marks(text: Seq<char>) -> nat {
    marks(text, text.len())
}

/// A statement has one placeholder for each of its values.
pub open spec fn balanced(request: RequestView) -> bool {
    match request {
        RequestView::Items(query) => all_marks(query.sql) == query.binds.len(),
        RequestView::User(query) => all_marks(query.sql) == query.binds.len(),
        RequestView::Category(query) => all_marks(query.sql) == query.binds.len(),
        RequestView::CategoryIds(query) => all_marks(query.sql) == query.binds.len(),
        RequestView::Categories(query) => all_marks(query.sql) == query.binds.len(),
        RequestView::Config(query) => all_marks(query.sql) == query.binds.len(),
        RequestView::Reports(query) => all_marks(query.sql) == query.binds.len(),
        RequestView::Execute(query) => all_marks(query.sql) == query.binds.len(),
        _ => true,
    }
}

/// The request of a step, where it has one, is balanced.
pub open spec fn asks_balanced<S>(step: StepView<S>) -> bool {
    step matches StepView::Ask(_, request) ==> balanced(request)
}

// The marks of each text, counted a piece at a time.

proof fn lemma_user_marks()
    ensures
        all_marks("SELECT * FROM `users` WHERE `id` = ?"@) == 1,
{
    reveal_strlit("SELECT * FROM `users` WHERE `id` = ?");
    reveal_with_fuel(marks, 31);
    let sql = "SELECT * FROM `users` WHERE `id` = ?"@;
    assert(marks(sql, 30) == 0);
}

proof fn lemma_category_marks()
    ensures
        all_marks("SELECT * FROM `categories` WHERE `id` = ?"@) == 1,
{
    reveal_strlit("SELECT * FROM `categories` WHERE `id` = ?");
    reveal_with_fuel(marks, 31);
    let sql = "SELECT * FROM `categories` WHERE `id` = ?"@;
    assert(marks(sql, 30) == 0);
}

proof fn lemma_config_marks()
    ensures
        all_marks("SELECT * FROM `configs` WHERE `name` = ?"@) == 1,
{
    reveal_strlit("SELECT * FROM `configs` WHERE `name` = ?");
    reveal_with_fuel(marks, 31);
    let sql = "SELECT * FROM `configs` WHERE `name` = ?"@;
    assert(marks(sql, 30) == 0);
}

proof fn lemma_store_marks()
    ensures
        all_marks("INSERT INTO `configs` (`name`, `val`) VALUES (?, ?) ON DUPLICATE KEY UPDATE `val` = VALUES(`val`)"@) == 2,
{
    reveal_strlit("INSERT INTO `configs` (`name`, `val`) VALUES (?, ?) ON DUPLICATE KEY UPDATE `val` = VALUES(`val`)");
    reveal_with_fuel(marks, 31);
    let sql = "INSERT INTO `configs` (`name`, `val`) VALUES (?, ?) ON DUPLICATE KEY UPDATE `val` = VALUES(`val`)"@;
    assert(marks(sql, 30) == 0);
    assert(marks(sql, 60) == 2);
    assert(marks(sql, 90) == 2);
}

proof fn lemma_reports_marks()
    ensures
        all_marks("SELECT * FROM `transaction_evidences` WHERE `id` > 15007"@) == 0,
{
    reveal_strlit("SELECT * FROM `transaction_evidences` WHERE `id` > 15007");
    reveal_with_fuel(marks, 31);
    let sql = "SELECT * FROM `transaction_evidences` WHERE `id` > 15007"@;
    assert(marks(sql, 30) == 0);
}

proof fn lemma_categories_marks()
    ensures
        all_marks("SELECT * FROM categories"@) == 0,
{
    reveal_strlit("SELECT * FROM categories");
    reveal_with_fuel(marks, 25);
}

proof fn lemma_category_ids_marks()
    ensures
        all_marks("SELECT id FROM `categories` WHERE parent_id=?"@) == 1,
{
    reveal_strlit("SELECT id FROM `categories` WHERE parent_id=?");
    reveal_with_fuel(marks, 31);
    let sql = "SELECT id FROM `categories` WHERE parent_id=?"@;
    assert(marks(sql, 30) == 0);
}

proof fn lemma_new_items_first_marks()
    ensures
        all_marks("SELECT * FROM `items` WHERE `status` IN (?,?) ORDER BY `created_at` DESC, `id` DESC LIMIT ?"@) == 3,
{
    reveal_strlit("SELECT * FROM `items` WHERE `status` IN (?,?) ORDER BY `created_at` DESC, `id` DESC LIMIT ?");
    reveal_with_fuel(marks, 31);
    let sql = "SELECT * FROM `items` WHERE `status` IN (?,?) ORDER BY `created_at` DESC, `id` DESC LIMIT ?"@;
    assert(marks(sql, 30) == 0);
    assert(marks(sql, 60) == 2);
    assert(marks(sql, 90) == 2);
}

proof fn lemma_new_items_after_marks()
    ensures
        all_marks("SELECT * FROM `items` WHERE `status` IN (?,?) AND (`created_at` < ?  OR (`created_at` <= ? AND `id` < ?)) ORDER BY `created_at` DESC, `id` DESC LIMIT ?"@) == 6,
{
    reveal_strlit("SELECT * FROM `items` WHERE `status` IN (?,?) AND (`created_at` < ?  OR (`created_at` <= ? AND `id` < ?)) ORDER BY `created_at` DESC, `id` DESC LIMIT ?");
    reveal_with_fuel(marks, 31);
    let sql = "SELECT * FROM `items` WHERE `status` IN (?,?) AND (`created_at` < ?  OR (`created_at` <= ? AND `id` < ?)) ORDER BY `created_at` DESC, `id` DESC LIMIT ?"@;
    assert(marks(sql, 30) == 0);
    assert(marks(sql, 60) == 2);
    assert(marks(sql, 90) == 4);
    assert(marks(sql, 120) == 5);
    assert(marks(sql, 150) == 5);
}

proof fn lemma_category_items_marks()
    ensures
        all_marks("SELECT * FROM `items` WHERE `status` IN (?,?) AND category_id IN ("@) == 2,
{
    reveal_strlit("SELECT * FROM `items` WHERE `status` IN (?,?) AND category_id IN (");
    reveal_with_fuel(marks, 31);
    let sql = "SELECT * FROM `items` WHERE `status` IN (?,?) AND category_id IN ("@;
    assert(marks(sql, 30) == 0);
    assert(marks(sql, 60) == 2);
}

proof fn lemma_category_items_first_marks()
    ensures
        all_marks(") ORDER BY created_at DESC, id DESC LIMIT ?"@) == 1,
{
    reveal_strlit(") ORDER BY created_at DESC, id DESC LIMIT ?");
    reveal_with_fuel(marks, 31);
    let sql = ") ORDER BY created_at DESC, id DESC LIMIT ?"@;
    assert(marks(sql, 30) == 0);
}

proof fn lemma_category_items_after_marks()
    ensures
        all_marks(") AND (`created_at` < ?  OR (`created_at` <= ? AND `id` < ?)) ORDER BY `created_at` DESC, `id` DESC LIMIT ?"@) == 4,
{
    reveal_strlit(") AND (`created_at` < ?  OR (`created_at` <= ? AND `id` < ?)) ORDER BY `created_at` DESC, `id` DESC LIMIT ?");
    reveal_with_fuel(marks, 31);
    let sql = ") AND (`created_at` < ?  OR (`created_at` <= ? AND `id` < ?)) ORDER BY `created_at` DESC, `id` DESC LIMIT ?"@;
    assert(marks(sql, 30) == 1);
    assert(marks(sql, 60) == 3);
    assert(marks(sql, 90) == 3);
}

proof fn lemma_transactions_first_marks()
    ensures
        all_marks("SELECT * FROM `items` WHERE (`seller_id` = ? OR `buyer_id` = ?) AND `status` IN (?,?,?,?,?) ORDER BY `created_at` DESC, `id` DESC LIMIT ?"@) == 8,
{
    reveal_strlit("SELECT * FROM `items` WHERE (`seller_id` = ? OR `buyer_id` = ?) AND `status` IN (?,?,?,?,?) ORDER BY `created_at` DESC, `id` DESC LIMIT ?");
    reveal_with_fuel(marks, 31);
    let sql = "SELECT * FROM `items` WHERE (`seller_id` = ? OR `buyer_id` = ?) AND `status` IN (?,?,?,?,?) ORDER BY `created_at` DESC, `id` DESC LIMIT ?"@;
    assert(marks(sql, 30) == 0);
    assert(marks(sql, 60) == 1);
    assert(marks(sql, 90) == 7);
    assert(marks(sql, 120) == 7);
}

proof fn lemma_transactions_after_marks()
    ensures
        all_marks("SELECT * FROM `items` WHERE (`seller_id` = ? OR `buyer_id` = ?) AND `status` IN (?,?,?,?,?) AND (`created_at` < ?  OR (`created_at` <= ? AND `id` < ?)) ORDER BY `created_at` DESC, `id` DESC LIMIT ?"@) == 11,
{
    reveal_strlit("SELECT * FROM `items` WHERE (`seller_id` = ? OR `buyer_id` = ?) AND `status` IN (?,?,?,?,?) AND (`created_at` < ?  OR (`created_at` <= ? AND `id` < ?)) ORDER BY `created_at` DESC, `id` DESC LIMIT ?");
    reveal_with_fuel(marks, 31);
    let sql = "SELECT * FROM `items` WHERE (`seller_id` = ? OR `buyer_id` = ?) AND `status` IN (?,?,?,?,?) AND (`created_at` < ?  OR (`created_at` <= ? AND `id` < ?)) ORDER BY `created_at` DESC, `id` DESC LIMIT ?"@;
    assert(marks(sql, 30) == 0);
    assert(marks(sql, 60) == 1);
    assert(marks(sql, 90) == 7);
    assert(marks(sql, 120) == 8);
    assert(marks(sql, 150) == 10);
    assert(marks(sql, 180) == 10);
}

/// No `?` stands in a list of numbers.
proof fn lemma_list_marks(parts: Seq<u32>)
    ensures
        all_marks(comma_list(parts)) == 0,
    decreases parts.len(),
{
    reveal_strlit(",");
    reveal_with_fuel(marks, 2);
    if parts.len() == 1 {
        lemma_decimal_marks(parts[0] as nat);
    } else if parts.len() > 1 {
        let last = decimal(parts.last() as nat);
        lemma_list_marks(parts.drop_last());
        lemma_decimal_marks(parts.last() as nat);
        lemma_marks_concat(comma_list(parts.drop_last()), ","@);
        lemma_marks_concat(comma_list(parts.drop_last()) + ","@, last);
    }
}

proof fn lemma_decimal_marks(n: nat)
    ensures
        all_marks(decimal(n)) == 0,
    decreases n,
{
    reveal_with_fuel(marks, 2);
    if n >= 10 {
        let rest = decimal(n / 10);
        lemma_decimal_marks(n / 10);
        lemma_marks_concat(rest, seq![digit(n % 10)]);
        assert(decimal(n) =~= rest + seq![digit(n % 10)]);
    }
}

/// The marks of two texts, one after the other.
proof fn lemma_marks_concat(a: Seq<char>, b: Seq<char>)
    ensures
        all_marks(a + b) == all_marks(a) + all_marks(b),
{
    lemma_marks_before(a, b, a.len());
    lemma_marks_after(a, b, b.len());
    assert((a + b).len() == a.len() + b.len());
}

proof fn lemma_marks_before(a: Seq<char>, b: Seq<char>, n: nat)
    requires
        n <= a.len(),
    ensures
        marks(a + b, n) == marks(a, n),
    decreases n,
{
    if n > 0 {
        lemma_marks_before(a, b, (n - 1) as nat);
    }
}

proof fn lemma_marks_after(a: Seq<char>, b: Seq<char>, n: nat)
    requires
        n <= b.len(),
    ensures
        marks(a + b, a.len() + n) == marks(a + b, a.len()) + marks(b, n),
    decreases n,
{
    if n > 0 {
        lemma_marks_after(a, b, (n - 1) as nat);
    }
}

/// The list of categories in the statement adds no placeholder.
proof fn lemma_category_items_balanced(category_ids: Seq<u32>, cursor: CursorView)
    ensures
        balanced(category_items_request(category_ids, cursor)),
{
    let list = comma_list(category_ids);
    let head = "SELECT * FROM `items` WHERE `status` IN (?,?) AND category_id IN ("@;
    lemma_category_items_marks();
    lemma_category_items_first_marks();
    lemma_category_items_after_marks();
    lemma_list_marks(category_ids);
    lemma_marks_concat(head, list);
    lemma_marks_concat(head + list, ") ORDER BY created_at DESC, id DESC LIMIT ?"@);
    lemma_marks_concat(
        head + list,
        ") AND (`created_at` < ?  OR (`created_at` <= ? AND `id` < ?)) ORDER BY `created_at` DESC, `id` DESC LIMIT ?"@,
    );
}

/// Every request that a handler can make is balanced.
proof fn lemma_balanced()
    ensures
        forall|via: Via, user_id: i64| balanced(#[trigger] user_request(via, user_id)),
        forall|category_id: u32| balanced(#[trigger] category_request(category_id)),
        forall|name: Seq<char>| balanced(#[trigger] config_request(name)),
        forall|name: Seq<char>, val: Seq<char>| balanced(#[trigger] store_request(name, val)),
        balanced(reports_request()),
        balanced(categories_request()),
        forall|id: u32| balanced(#[trigger] category_ids_request(id)),
        forall|cursor: CursorView| balanced(#[trigger] new_items_request(cursor)),
        forall|ids: Seq<u32>, cursor: CursorView|
            balanced(#[trigger] category_items_request(ids, cursor)),
        forall|user_id: i64, cursor: CursorView|
            balanced(#[trigger] transactions_request(user_id, cursor)),
{
    lemma_user_marks();
    lemma_category_marks();
    lemma_config_marks();
    lemma_store_marks();
    lemma_reports_marks();
    lemma_categories_marks();
    lemma_category_ids_marks();
    lemma_new_items_first_marks();
    lemma_new_items_after_marks();
    lemma_transactions_first_marks();
    lemma_transactions_after_marks();
    assert forall|ids: Seq<u32>, cursor: CursorView| balanced(
        #[trigger] category_items_request(ids, cursor),
    ) by {
        lemma_category_items_balanced(ids, cursor);
    }
}

/// Every statement that a handler of a list sends has one placeholder for each of its
/// values.
pub proof fn law_list_statements(
    params: NewItemsQueryParams,
    root_category_id: u32,
    uri: Seq<char>,
    new_items: NewItemsState,
    category_items: CategoryItemsState,
    transactions: TransactionsState,
    reply: Reply,
)
    ensures
        asks_balanced(new_items_start(params)),
        asks_balanced(new_items_step(new_items, reply)),
        asks_balanced(category_items_start(root_category_id, uri)),
        asks_balanced(category_items_step(category_items, reply)),
        asks_balanced(transactions_start(uri)),
        asks_balanced(transactions_step(transactions, reply)),
{
    lemma_balanced();
}

/// Every statement that one of the other handlers sends has one placeholder for each of
/// its values.
pub proof fn law_other_statements(
    payment: Seq<char>,
    shipment: Seq<char>,
    initialize: InitializeState,
    settings: SettingsState,
    reply: Reply,
)
    ensures
        asks_balanced(reports_start()),
        asks_balanced(initialize_start(payment, shipment)),
        asks_balanced(initialize_step(initialize, reply)),
        asks_balanced(settings_start()),
        asks_balanced(settings_step(settings, reply)),
{
    lemma_balanced();
}

} // verus!
