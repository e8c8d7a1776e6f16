//! What is shown of the rows of the database, column by column.
use vstd::prelude::*;

use crate::error::{ErrorView, StatusCode};
use crate::items::{image_url, items_limit, page, shown_item};
use crate::lookup::{
    config_value, payment_url, token_of, user_found, user_simple, with_parent_name,
};
use crate::model::{
    shown_evidence, shown_evidences, shown_session_user, shown_user, Category, Config, Item,
    ItemSimpleView, ShownEvidenceView, ShownUserView, TransactionEvidence, User, UserSimple,
};
use crate::protocol::{BindView, Failure};
use crate::startup::{database_address, wrong_port, MysqlEnv};
use crate::text::{u32_parse_error, u32_value};

verus! {

/// The address of an image is its whole name after `/upload/`.
pub proof fn law_image_url(image_name: Seq<char>)
    ensures
        image_url(image_name) == "/upload/"@ + image_name,
        image_url(image_name).len() == 8 + image_name.len(),
        image_url(image_name).skip(8) == image_name,
{
    reveal_strlit("/upload/");
    assert(image_url(image_name).skip(8) =~= image_name);
}

/// An entry has the columns of its row: each of them is the row's own.
pub open spec fn has_columns_of(entry: ItemSimpleView, row: Item) -> bool {
    &&& entry.id == row.id
    &&& entry.seller_id == row.seller_id
    &&& entry.status == row.status@
    &&& entry.name == row.name@
    &&& entry.price == row.price
    &&& entry.image_url == "/upload/"@ + row.image_name@
    &&& entry.category_id == row.category_id
    &&& entry.created_at == row.created_at@.unix_seconds()
}

/// What a list shows of a row has the columns of the row, and the seller and the category
/// that were found for it.
pub proof fn law_entry(row: Item, seller: UserSimple, category: Category)
    ensures
        has_columns_of(shown_item(row, seller, category), row),
        shown_item(row, seller, category).id == row.id,
        shown_item(row, seller, category).seller_id == row.seller_id,
        shown_item(row, seller, category).status == row.status@,
        shown_item(row, seller, category).name == row.name@,
        shown_item(row, seller, category).price == row.price,
        shown_item(row, seller, category).image_url == "/upload/"@ + row.image_name@,
        shown_item(row, seller, category).category_id == row.category_id,
        shown_item(row, seller, category).created_at == row.created_at@.unix_seconds(),
        shown_item(row, seller, category).seller == seller,
        shown_item(row, seller, category).category == category,
{
}

/// Rows that are shown alike agree in every column that is shown.
pub proof fn law_entries_differ(a: Item, b: Item, seller: UserSimple, category: Category)
    requires
        shown_item(a, seller, category) == shown_item(b, seller, category),
    ensures
        a.id == b.id,
        a.seller_id == b.seller_id,
        a.status@ == b.status@,
        a.name@ == b.name@,
        a.price == b.price,
        a.image_name@ == b.image_name@,
        a.category_id == b.category_id,
        a.created_at@.unix_seconds() == b.created_at@.unix_seconds(),
{
    law_entry(a, seller, category);
    law_entry(b, seller, category);
    law_image_url(a.image_name@);
    law_image_url(b.image_name@);
}

/// A page shows the first 48 entries, in their order and as they are, or all where there
/// are no more, and says that there is a next page exactly where there are more. It names
/// its root category.
pub proof fn law_page_of_entries(
    root_category_id: Option<u32>,
    root_category_name: Option<String>,
    items: Seq<ItemSimpleView>,
)
    ensures
        ({
            let shown = page(root_category_id, root_category_name, items);
            &&& shown.root_category_id == root_category_id
            &&& shown.root_category_name == root_category_name
            &&& shown.has_next <==> items.len() > 48
            &&& items.len() <= 48 ==> shown.items.len() == items.len()
            &&& items.len() > 48 ==> shown.items.len() == 48
            &&& forall|i: int| 0 <= i < shown.items.len() ==> #[trigger] shown.items[i] == items[i]
        }),
        items_limit() == BindView::UInt(49),
{
}

/// Other users see of a user the id, the name and the number of items, and a failure to
/// find the user stays one.
pub proof fn law_seen_by_others(user: User, failure: Failure)
    ensures
        UserSimple::of(user).id == user.id,
        UserSimple::of(user).account_name == user.account_name,
        UserSimple::of(user).num_sell_items == user.num_sell_items,
        user_simple(Ok(user)) == Ok::<UserSimple, Failure>(UserSimple::of(user)),
        user_simple(Err(failure)) == Err::<UserSimple, Failure>(failure),
{
}

/// The settings show of a user the id, the name, the address and the number of items.
pub proof fn law_seen_by_itself(user: User)
    ensures
        shown_user(user) == (ShownUserView {
            id: user.id,
            account_name: user.account_name@,
            address: user.address@,
            num_sell_items: user.num_sell_items,
        }),
        shown_session_user(Some(user)) == Some(shown_user(user)),
        shown_session_user(None) is None,
{
}

/// An entry of the report has the columns of its row.
pub open spec fn reports_on(entry: ShownEvidenceView, row: TransactionEvidence) -> bool {
    &&& entry.id == row.id
    &&& entry.seller_id == row.seller_id
    &&& entry.buyer_id == row.buyer_id
    &&& entry.status == row.status@
    &&& entry.item_id == row.item_id
    &&& entry.item_name == row.item_name@
    &&& entry.item_price == row.item_price
    &&& entry.item_description == row.item_description@
    &&& entry.item_category_id == row.item_category_id
    &&& entry.item_root_category_id == row.item_root_category_id
}

/// The report has one entry for each row, in their order, and each has the columns of the
/// row at its place.
pub proof fn law_report_entries(rows: Seq<TransactionEvidence>, i: int)
    ensures
        shown_evidences(rows).len() == rows.len(),
        0 <= i < rows.len() ==> {
            &&& shown_evidences(rows)[i].id == rows[i].id
            &&& shown_evidences(rows)[i].seller_id == rows[i].seller_id
            &&& shown_evidences(rows)[i].buyer_id == rows[i].buyer_id
            &&& shown_evidences(rows)[i].status == rows[i].status@
            &&& shown_evidences(rows)[i].item_id == rows[i].item_id
            &&& shown_evidences(rows)[i].item_name == rows[i].item_name@
            &&& shown_evidences(rows)[i].item_price == rows[i].item_price
            &&& shown_evidences(rows)[i].item_description == rows[i].item_description@
            &&& shown_evidences(rows)[i].item_category_id == rows[i].item_category_id
            &&& shown_evidences(rows)[i].item_root_category_id == rows[i].item_root_category_id
        },
        0 <= i < rows.len() ==> shown_evidence(rows[i]) == shown_evidences(rows)[i],
{
}

/// The token of a session is the whole text that it holds, and empty exactly where it
/// holds none or an empty one.
pub proof fn law_token(token: String, failure: Failure)
    ensures
        token_of(Ok(Some(token))) == token@,
        token_of(Ok(None)).len() == 0,
        token_of(Err(failure)).len() == 0,
{
    reveal_strlit("");
}

/// The value of a setting is the whole text that is stored; a setting that is missing has
/// none, and any other failure stays one. The address of the payment service is the value
/// of its setting, and the default in any other case.
pub proof fn law_setting_values(config: Config)
    ensures
        config_value(Ok(config)) == Ok::<Option<String>, Failure>(Some(config.val)),
        config_value(Err(Failure::RowNotFound)) == Ok::<Option<String>, Failure>(None),
        config_value(Err(Failure::Other)) == Err::<Option<String>, Failure>(Failure::Other),
        payment_url(Ok(config)) == config.val@,
        payment_url(Err(Failure::RowNotFound)) == "http://localhost:5555"@,
        payment_url(Err(Failure::Other)) == "http://localhost:5555"@,
{
}

/// The user of a session is the one that was found; a user that is missing is not found,
/// and any other failure is one of the database.
pub proof fn law_session_user_found(user: User)
    ensures
        user_found(Ok(user)) == Ok::<User, ErrorView>(user),
        user_found(Err(Failure::RowNotFound)) == Err::<User, ErrorView>(
            ErrorView { status: StatusCode::NotFound, message: "user not found"@ },
        ),
        user_found(Err(Failure::Other)) == Err::<User, ErrorView>(
            ErrorView { status: StatusCode::InternalServerError, message: "db error"@ },
        ),
{
}

/// Only the name of the parent changes where a category gets it.
pub proof fn law_parent_name(category: Category, name: Option<String>)
    ensures
        with_parent_name(category, name).id == category.id,
        with_parent_name(category, name).parent_id == category.parent_id,
        with_parent_name(category, name).category_name == category.category_name,
        with_parent_name(category, name).parent_category_name == name,
{
}

/// The address of the database is made of the whole of each setting that the environment
/// has, and of the default of each that it has not.
pub proof fn law_database_address(env: MysqlEnv)
    ensures
        exists|user: Seq<char>, pass: Seq<char>, host: Seq<char>, port: Seq<char>, dbname: Seq<char>|
            {
                &&& database_address(env) == #[trigger] ("mysql://"@ + user + ":"@ + pass + "@"@
                    + host + ":"@ + port + "/"@ + dbname)
                &&& user == if env.user is Some { env.user->0@ } else { "isucari"@ }
                &&& pass == if env.pass is Some { env.pass->0@ } else { "isucari"@ }
                &&& host == if env.host is Some { env.host->0@ } else { "127.0.0.1"@ }
                &&& port == if env.port is Some { env.port->0@ } else { "3306"@ }
                &&& dbname == if env.dbname is Some { env.dbname->0@ } else { "isucari"@ }
            },
{
    let user = if env.user is Some { env.user->0@ } else { "isucari"@ };
    let pass = if env.pass is Some { env.pass->0@ } else { "isucari"@ };
    let host = if env.host is Some { env.host->0@ } else { "127.0.0.1"@ };
    let port = if env.port is Some { env.port->0@ } else { "3306"@ };
    let dbname = if env.dbname is Some { env.dbname->0@ } else { "isucari"@ };
    assert(database_address(env) == "mysql://"@ + user + ":"@ + pass + "@"@ + host + ":"@ + port
        + "/"@ + dbname);
}

/// A port is wrong exactly where it is set and is no `u32`, and for the reason that its
/// text is none.
pub proof fn law_wrong_port(env: MysqlEnv)
    ensures
        env.port is None ==> wrong_port(env) is None,
        env.port matches Some(port) ==> (wrong_port(env) is None <==> u32_value(port@) is Some),
        env.port matches Some(port) ==> (wrong_port(env) matches Some(e) ==> e == u32_parse_error(
            port@,
        )),
{
}

} // verus!
