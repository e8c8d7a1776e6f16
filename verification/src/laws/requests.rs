//! What is asked of the database and of the session.
use vstd::prelude::*;

use crate::category_items::{category_ids_request, category_items_request};
use crate::datetime::Civil;
use crate::error::StatusCode;
use crate::initialize::store_request;
use crate::items::{new_items_request, params_position};
use crate::laws::calendar::law_moment_at;
use crate::laws::numbers::{law_list_of_numbers, pieces};
use crate::lookup::{category_request, config_request, user_id_request, user_request};
use crate::model::NewItemsQueryParams;
use crate::paging::{
    cursor_for, position_of, uri_position, url_query_pairs, value_of, CursorView, Position,
};
use crate::protocol::{BindView, RequestView, Via};
use crate::reports::reports_request;
use crate::settings::categories_request;
use crate::text::{comma_list, digits_value, i64_value, is_digits};
use crate::transactions::transactions_request;

verus! {

/// A user, a category and a setting are asked for by the whole of what names them.
pub proof fn law_single_requests(via: Via, user_id: i64, category_id: u32, name: Seq<char>)
    ensures
        user_request(via, user_id) matches RequestView::User(query) && {
            &&& query.via == via
            &&& query.sql == "SELECT * FROM `users` WHERE `id` = ?"@
            &&& query.binds =~= seq![BindView::Int(user_id as int)]
        },
        category_request(category_id) matches RequestView::Category(query) && {
            &&& query.via == Via::Pool
            &&& query.sql == "SELECT * FROM `categories` WHERE `id` = ?"@
            &&& query.binds =~= seq![BindView::UInt(category_id as int)]
        },
        category_ids_request(category_id) matches RequestView::CategoryIds(query) && {
            &&& query.via == Via::Pool
            &&& query.sql == "SELECT id FROM `categories` WHERE parent_id=?"@
            &&& query.binds =~= seq![BindView::UInt(category_id as int)]
        },
        config_request(name) matches RequestView::Config(query) && {
            &&& query.via == Via::Pool
            &&& query.sql == "SELECT * FROM `configs` WHERE `name` = ?"@
            &&& query.binds =~= seq![BindView::Text(name)]
        },
        user_id_request() == RequestView::SessionInteger("user_id"@),
{
}

/// The requests for all categories and for the evidences of the report have no values.
pub proof fn law_fixed_requests()
    ensures
        categories_request() matches RequestView::Categories(query) && {
            &&& query.via == Via::Pool
            &&& query.sql == "SELECT * FROM categories"@
            &&& query.binds.len() == 0
        },
        reports_request() matches RequestView::Reports(query) && {
            &&& query.via == Via::Pool
            &&& query.sql == "SELECT * FROM `transaction_evidences` WHERE `id` > 15007"@
            &&& query.binds.len() == 0
        },
{
}

/// A setting is stored under its whole name with its whole value.
pub proof fn law_store_request(name: Seq<char>, val: Seq<char>)
    ensures
        store_request(name, val) matches RequestView::Execute(query) && {
            &&& query.via == Via::Pool
            &&& query.sql
                == "INSERT INTO `configs` (`name`, `val`) VALUES (?, ?) ON DUPLICATE KEY UPDATE `val` = VALUES(`val`)"@
            &&& query.binds.len() == 2
            &&& query.binds[0] == BindView::Text(name)
            &&& query.binds[1] == BindView::Text(val)
        },
{
}

/// Requests that store another value, or store under another name, differ.
pub proof fn law_store_requests_differ(
    name: Seq<char>,
    val: Seq<char>,
    other_name: Seq<char>,
    other_val: Seq<char>,
)
    requires
        name != other_name || val != other_val,
    ensures
        store_request(name, val) != store_request(other_name, other_val),
{
    law_store_request(name, val);
    law_store_request(other_name, other_val);
}

/// Requests for another user, category or setting differ.
pub proof fn law_single_requests_differ(
    via: Via,
    user_id: i64,
    other_user_id: i64,
    category_id: u32,
    other_category_id: u32,
    name: Seq<char>,
    other_name: Seq<char>,
)
    ensures
        user_id != other_user_id ==> user_request(via, user_id) != user_request(via, other_user_id),
        category_id != other_category_id ==> category_request(category_id) != category_request(
            other_category_id,
        ),
        category_id != other_category_id ==> category_ids_request(category_id)
            != category_ids_request(other_category_id),
        name != other_name ==> config_request(name) != config_request(other_name),
{
    assert(user_request(via, user_id)->User_0.binds[0] == BindView::Int(user_id as int));
    assert(user_request(via, other_user_id)->User_0.binds[0] == BindView::Int(
        other_user_id as int,
    ));
    assert(category_request(category_id)->Category_0.binds[0] == BindView::UInt(
        category_id as int,
    ));
    assert(category_request(other_category_id)->Category_0.binds[0] == BindView::UInt(
        other_category_id as int,
    ));
    assert(category_ids_request(category_id)->CategoryIds_0.binds[0] == BindView::UInt(
        category_id as int,
    ));
    assert(category_ids_request(other_category_id)->CategoryIds_0.binds[0] == BindView::UInt(
        other_category_id as int,
    ));
    assert(config_request(name)->Config_0.binds[0] == BindView::Text(name));
    assert(config_request(other_name)->Config_0.binds[0] == BindView::Text(other_name));
}

/// A page of the newest items is asked for among the items on sale and sold out, the
/// newest first, and one row more than it shows. A page that follows an item begins after
/// its time, or at its time after its id.
pub proof fn law_new_items_request(created_at: Civil, item_id: i64)
    ensures
        new_items_request(CursorView::FirstPage) matches RequestView::Items(query) && {
            &&& query.via == Via::Pool
            &&& query.sql
                == "SELECT * FROM `items` WHERE `status` IN (?,?) ORDER BY `created_at` DESC, `id` DESC LIMIT ?"@
            &&& query.binds =~= seq![
                BindView::Text("on_sale"@),
                BindView::Text("sold_out"@),
                BindView::UInt(49),
            ]
        },
        new_items_request(CursorView::After(created_at, item_id)) matches RequestView::Items(query)
            && {
            &&& query.via == Via::Pool
            &&& query.sql
                == "SELECT * FROM `items` WHERE `status` IN (?,?) AND (`created_at` < ?  OR (`created_at` <= ? AND `id` < ?)) ORDER BY `created_at` DESC, `id` DESC LIMIT ?"@
            &&& query.binds =~= seq![
                BindView::Text("on_sale"@),
                BindView::Text("sold_out"@),
                BindView::DateTime(created_at),
                BindView::DateTime(created_at),
                BindView::Int(item_id as int),
                BindView::UInt(49),
            ]
        },
{
}

/// The text of a statement lists the given categories: split at its commas, the list
/// between `head` and `tail` gives each of them, in their order, and nothing else.
pub open spec fn lists_categories(
    sql: Seq<char>,
    head: Seq<char>,
    category_ids: Seq<u32>,
    tail: Seq<char>,
) -> bool {
    exists|list: Seq<char>|
        {
            &&& sql == #[trigger] (head + list) + tail
            &&& category_ids.len() == 0 ==> list.len() == 0
            &&& category_ids.len() > 0 ==> pieces(list).len() == category_ids.len()
            &&& category_ids.len() > 0 ==> forall|i: int|
                0 <= i < category_ids.len() ==> is_digits(#[trigger] pieces(list)[i])
                    && digits_value(pieces(list)[i]) == category_ids[i]
        }
}

/// A page of the newest items of some categories is asked for among all of those
/// categories and no others, and else as a page of the newest items.
pub proof fn law_category_items_request(
    category_ids: Seq<u32>,
    created_at: Civil,
    item_id: i64,
)
    ensures
        category_items_request(category_ids, CursorView::FirstPage) matches RequestView::Items(
            query,
        ) && {
            &&& query.via == Via::Pool
            &&& lists_categories(
                query.sql,
                "SELECT * FROM `items` WHERE `status` IN (?,?) AND category_id IN ("@,
                category_ids,
                ") ORDER BY created_at DESC, id DESC LIMIT ?"@,
            )
            &&& query.binds =~= seq![
                BindView::Text("on_sale"@),
                BindView::Text("sold_out"@),
                BindView::UInt(49),
            ]
        },
        category_items_request(
            category_ids,
            CursorView::After(created_at, item_id),
        ) matches RequestView::Items(query) && {
            &&& query.via == Via::Pool
            &&& lists_categories(
                query.sql,
                "SELECT * FROM `items` WHERE `status` IN (?,?) AND category_id IN ("@,
                category_ids,
                ") AND (`created_at` < ?  OR (`created_at` <= ? AND `id` < ?)) ORDER BY `created_at` DESC, `id` DESC LIMIT ?"@,
            )
            &&& query.binds =~= seq![
                BindView::Text("on_sale"@),
                BindView::Text("sold_out"@),
                BindView::DateTime(created_at),
                BindView::DateTime(created_at),
                BindView::Int(item_id as int),
                BindView::UInt(49),
            ]
        },
{
    law_list_of_numbers(category_ids);
    let list = comma_list(category_ids);
    let head = "SELECT * FROM `items` WHERE `status` IN (?,?) AND category_id IN ("@;
    let first = category_items_request(category_ids, CursorView::FirstPage)->Items_0;
    let after = category_items_request(
        category_ids,
        CursorView::After(created_at, item_id),
    )->Items_0;
    assert(first.sql == (head + list) + ") ORDER BY created_at DESC, id DESC LIMIT ?"@);
    assert(after.sql == (head + list)
        + ") AND (`created_at` < ?  OR (`created_at` <= ? AND `id` < ?)) ORDER BY `created_at` DESC, `id` DESC LIMIT ?"@);
}

/// A page of transactions is asked for, inside the transaction, among the items that the
/// user sells or has bought, whatever their status, the newest first, and one row more
/// than it holds.
pub proof fn law_transactions_request(user_id: i64, created_at: Civil, item_id: i64)
    ensures
        transactions_request(user_id, CursorView::FirstPage) matches RequestView::Items(query) && {
            &&& query.via == Via::Transaction
            &&& query.sql
                == "SELECT * FROM `items` WHERE (`seller_id` = ? OR `buyer_id` = ?) AND `status` IN (?,?,?,?,?) ORDER BY `created_at` DESC, `id` DESC LIMIT ?"@
            &&& query.binds =~= seq![
                BindView::Int(user_id as int),
                BindView::Int(user_id as int),
                BindView::Text("on_sale"@),
                BindView::Text("trading"@),
                BindView::Text("sold_out"@),
                BindView::Text("cancel"@),
                BindView::Text("stop"@),
                BindView::UInt(11),
            ]
        },
        transactions_request(
            user_id,
            CursorView::After(created_at, item_id),
        ) matches RequestView::Items(query) && {
            &&& query.via == Via::Transaction
            &&& query.sql
                == "SELECT * FROM `items` WHERE (`seller_id` = ? OR `buyer_id` = ?) AND `status` IN (?,?,?,?,?) AND (`created_at` < ?  OR (`created_at` <= ? AND `id` < ?)) ORDER BY `created_at` DESC, `id` DESC LIMIT ?"@
            &&& query.binds =~= seq![
                BindView::Int(user_id as int),
                BindView::Int(user_id as int),
                BindView::Text("on_sale"@),
                BindView::Text("trading"@),
                BindView::Text("sold_out"@),
                BindView::Text("cancel"@),
                BindView::Text("stop"@),
                BindView::DateTime(created_at),
                BindView::DateTime(created_at),
                BindView::Int(item_id as int),
                BindView::UInt(11),
            ]
        },
{
}

/// A position leads to what follows an item where both of its numbers are positive, at
/// the moment that its time names; to the first page where one of them is not; nowhere
/// where its time lies beyond the range of dates.
pub proof fn law_cursor(item_id: i64, created_at: i64)
    ensures
        ({
            let cursor = cursor_for(Position { item_id, created_at });
            &&& item_id <= 0 || created_at <= 0 ==> cursor == Some(CursorView::FirstPage)
            &&& item_id > 0 && 0 < created_at <= 8_210_266_876_799 ==> (cursor matches Some(
                CursorView::After(moment, id),
            ) && id == item_id && moment.valid() && moment.nanosecond == 0
                && moment.unix_seconds() == created_at)
            &&& item_id > 0 && created_at > 8_210_266_876_799 ==> cursor is None
        }),
{
    if created_at > 0 {
        law_moment_at(created_at as nat);
    }
}

/// The parameters of a request name a position, with zero for what is missing.
pub proof fn law_params_position(params: NewItemsQueryParams)
    ensures
        params.item_id matches Some(id) ==> params_position(params).item_id == id,
        params.item_id is None ==> params_position(params).item_id == 0,
        params.created_at matches Some(at) ==> params_position(params).created_at == at,
        params.created_at is None ==> params_position(params).created_at == 0,
{
}

/// A query names a position exactly where `item_id` and `created_at` are there and both
/// are integers, and then that position; else the first of the two that is not decides the
/// error. An empty query has no values.
pub proof fn law_position(pairs: Seq<(Seq<char>, Seq<char>)>, name: Seq<char>)
    ensures
        value_of(Seq::empty(), name) is None,
        position_of(pairs) matches Ok(p) ==> {
            &&& value_of(pairs, "item_id"@) matches Some(id) && i64_value(id) == Some(p.item_id)
            &&& value_of(pairs, "created_at"@) matches Some(at) && i64_value(at) == Some(
                p.created_at,
            )
        },
        position_of(pairs) matches Err(e) ==> {
            let no_id = !(value_of(pairs, "item_id"@) matches Some(id) && i64_value(id) is Some);
            let no_time = !(value_of(pairs, "created_at"@) matches Some(at) && i64_value(
                at,
            ) is Some);
            &&& no_id || no_time
            &&& e.status == StatusCode::InternalServerError
            &&& no_id ==> e.message == "item_id param error"@
            &&& !no_id ==> e.message == "created_at param error"@
        },
{
}

/// The position that a URL names is the one of its query, and there is none exactly where
/// the text is no URL.
pub proof fn law_uri_position(uri: Seq<char>)
    ensures
        uri_position(uri) is None <==> url_query_pairs(uri) is None,
        url_query_pairs(uri) matches Some(pairs) ==> uri_position(uri) == Some(position_of(pairs)),
{
}

} // verus!
