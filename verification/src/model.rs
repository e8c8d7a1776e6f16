//! The data of the service: rows of its tables, parameters of its requests and
//! bodies of its answers.
use vstd::prelude::*;

use crate::datetime::PrimitiveDateTime;

verus! {

pub const DEFAULT_PAYMENT_SERVICE_URL: &'static str = "http://localhost:5555";

pub const DEFAULT_SHIPMENT_SERVICE_URL: &'static str = "http://localhost:7000";

pub const ITEM_MIN_PRICE: u32 = 100;

pub const ITEM_MAX_PRICE: u32 = 1_000_000;

pub const ITEM_PRICE_ERR_MSG: &'static str =
    "商品価格は100ｲｽｺｲﾝ以上、1,000,000ｲｽｺｲﾝ以下にしてください";

pub const ITEM_STATUS_ON_SALE: &'static str = "on_sale";

pub const ITEM_STATUS_TRADING: &'static str = "trading";

pub const ITEM_STATUS_SOLD_OUT: &'static str = "sold_out";

pub const ITEM_STATUS_STOP: &'static str = "stop";

pub const ITEM_STATUS_CANCEL: &'static str = "cancel";

pub const ITEMS_PER_PAGE: u32 = 48;

pub const TRANSACTIONS_PER_PAGE: u32 = 10;

/// A row of the table `configs`.
#[derive(Debug, PartialEq, Eq)]
pub struct Config {
    pub name: String,
    pub val: String,
}

/// A row of the table `transaction_evidences`.
#[derive(Debug, PartialEq, Eq)]
pub struct TransactionEvidence {
    pub id: i64,
    pub seller_id: i64,
    pub buyer_id: i64,
    pub status: String,
    pub item_id: i64,
    pub item_name: String,
    pub item_price: u32,
    pub item_description: String,
    pub item_category_id: u32,
    pub item_root_category_id: u32,
    pub created_at: PrimitiveDateTime,
    pub updated_at: PrimitiveDateTime,
}

/// A transaction evidence as the report shows it.
#[derive(Debug, PartialEq, Eq)]
pub struct ShownEvidence {
    pub id: i64,
    pub seller_id: i64,
    pub buyer_id: i64,
    pub status: String,
    pub item_id: i64,
    pub item_name: String,
    pub item_price: u32,
    pub item_description: String,
    pub item_category_id: u32,
    pub item_root_category_id: u32,
}

/// A row of the table `users`.
#[derive(Debug, PartialEq, Eq)]
pub struct User {
    pub id: i64,
    pub account_name: String,
    pub hashed_password: Vec<u8>,
    pub address: String,
    pub num_sell_items: u32,
    pub last_bump: PrimitiveDateTime,
    pub created_at: PrimitiveDateTime,
}

/// A user as the settings show it.
#[derive(Debug, PartialEq, Eq)]
pub struct ShownUser {
    pub id: i64,
    pub account_name: String,
    pub address: String,
    pub num_sell_items: u32,
}

/// What other users see of a user.
#[derive(Debug, PartialEq, Eq)]
pub struct UserSimple {
    pub id: i64,
    pub account_name: String,
    pub num_sell_items: u32,
}

/// A row of the table `items`.
#[derive(Debug, PartialEq, Eq)]
pub struct Item {
    pub id: i64,
    pub seller_id: i64,
    pub buyer_id: i64,
    pub status: String,
    pub name: String,
    pub price: u32,
    pub description: String,
    pub image_name: String,
    pub category_id: u32,
    pub created_at: PrimitiveDateTime,
    pub updated_at: PrimitiveDateTime,
}

/// A category, with the name of its parent where that is known.
#[derive(Debug, PartialEq, Eq)]
pub struct Category {
    pub id: u32,
    pub parent_id: u32,
    pub category_name: String,
    pub parent_category_name: Option<String>,
}

/// An item as a list shows it.
#[derive(Debug, PartialEq, Eq)]
pub struct ItemSimple {
    pub id: i64,
    pub seller_id: i64,
    pub seller: UserSimple,
    pub status: String,
    pub name: String,
    pub price: u32,
    pub image_url: String,
    pub category_id: u32,
    pub category: Category,
    pub created_at: i64,
}

/// An item as its own page shows it.
#[derive(Debug, PartialEq, Eq)]
pub struct ItemDetail {
    pub id: i64,
    pub seller_id: i64,
    pub seller: UserSimple,
    pub buyer_id: Option<i64>,
    pub buyer: Option<UserSimple>,
    pub status: String,
    pub name: String,
    pub price: u32,
    pub description: String,
    pub image_url: String,
    pub category_id: u32,
    pub category: Category,
    pub transaction_evidence_id: Option<i64>,
    pub transaction_evidence_status: Option<String>,
    pub shipping_status: Option<String>,
    pub created_at: i64,
}

/// The parameters of a request for new items.
#[derive(Clone, Copy, Debug, PartialEq, Eq)]
pub struct NewItemsQueryParams {
    pub item_id: Option<i64>,
    pub created_at: Option<i64>,
}

/// The body of a request to initialize the service.
#[derive(Debug, PartialEq, Eq)]
pub struct ReqInitialize {
    pub payment_service_url: String,
    pub shipment_service_url: String,
}

/// The answer to a request to initialize the service.
#[derive(Debug, PartialEq, Eq)]
pub struct ResInitialize {
    pub campaign: i32,
    pub language: String,
}

/// A page of a list of items.
#[derive(Debug, PartialEq, Eq)]
pub struct ResNewItems {
    pub root_category_id: Option<u32>,
    pub root_category_name: Option<String>,
    pub has_next: bool,
    pub items: Vec<ItemSimple>,
}

/// The settings of a session.
#[derive(Debug, PartialEq, Eq)]
pub struct ResSetting {
    pub csrf_token: String,
    pub payment_service_url: String,
    pub user: Option<ShownUser>,
    pub categories: Vec<Category>,
}

/// The model of an item of a list.
pub struct ItemSimpleView {
    pub id: i64,
    pub seller_id: i64,
    pub seller: UserSimple,
    pub status: Seq<char>,
    pub name: Seq<char>,
    pub price: u32,
    pub image_url: Seq<char>,
    pub category_id: u32,
    pub category: Category,
    pub created_at: int,
}

impl View for ItemSimple {
    type V = ItemSimpleView;

    open spec fn view(&self) -> ItemSimpleView {
        ItemSimpleView {
            id: self.id,
            seller_id: self.seller_id,
            seller: self.seller,
            status: self.status@,
            name: self.name@,
            price: self.price,
            image_url: self.image_url@,
            category_id: self.category_id,
            category: self.category,
            created_at: self.created_at as int,
        }
    }
}

/// The models of the items of a list.
pub open spec fn item_views(items: Seq<ItemSimple>) -> Seq<ItemSimpleView> {
    items.map_values(|item: ItemSimple| item@)
}

/// The model of a page of a list of items.
pub struct NewItemsView {
    pub root_category_id: Option<u32>,
    pub root_category_name: Option<String>,
    pub has_next: bool,
    pub items: Seq<ItemSimpleView>,
}

impl View for ResNewItems {
    type V = NewItemsView;

    open spec fn view(&self) -> NewItemsView {
        NewItemsView {
            root_category_id: self.root_category_id,
            root_category_name: self.root_category_name,
            has_next: self.has_next,
            items: item_views(self.items@),
        }
    }
}

/// The model of a user as the settings show it.
pub struct ShownUserView {
    pub id: i64,
    pub account_name: Seq<char>,
    pub address: Seq<char>,
    pub num_sell_items: u32,
}

impl View for ShownUser {
    type V = ShownUserView;

    open spec fn view(&self) -> ShownUserView {
        ShownUserView {
            id: self.id,
            account_name: self.account_name@,
            address: self.address@,
            num_sell_items: self.num_sell_items,
        }
    }
}

/// What the settings show of a user: neither the password nor a time.
pub open spec fn shown_user(user: User) -> ShownUserView {
    ShownUserView {
        id: user.id,
        account_name: user.account_name@,
        address: user.address@,
        num_sell_items: user.num_sell_items,
    }
}

/// What the settings show of the user of a session, where there is one.
pub open spec fn shown_session_user(user: Option<User>) -> Option<ShownUserView> {
    match user {
        Some(user) => Some(shown_user(user)),
        None => None,
    }
}

impl User {
    /// The user as the settings show it.
    pub fn shown(&self) -> (shown: ShownUser)
        ensures
            shown.id == self.id,
            shown.account_name@ == self.account_name@,
            shown.address@ == self.address@,
            shown.num_sell_items == self.num_sell_items,
            shown@ == shown_user(*self),
    {
        ShownUser {
            id: self.id,
            account_name: self.account_name.clone(),
            address: self.address.clone(),
            num_sell_items: self.num_sell_items,
        }
    }
}

/// The model of a transaction evidence as the report shows it.
pub struct ShownEvidenceView {
    pub id: i64,
    pub seller_id: i64,
    pub buyer_id: i64,
    pub status: Seq<char>,
    pub item_id: i64,
    pub item_name: Seq<char>,
    pub item_price: u32,
    pub item_description: Seq<char>,
    pub item_category_id: u32,
    pub item_root_category_id: u32,
}

impl View for ShownEvidence {
    type V = ShownEvidenceView;

    open spec fn view(&self) -> ShownEvidenceView {
        ShownEvidenceView {
            id: self.id,
            seller_id: self.seller_id,
            buyer_id: self.buyer_id,
            status: self.status@,
            item_id: self.item_id,
            item_name: self.item_name@,
            item_price: self.item_price,
            item_description: self.item_description@,
            item_category_id: self.item_category_id,
            item_root_category_id: self.item_root_category_id,
        }
    }
}

/// The models of the transaction evidences that a report shows.
pub open spec fn evidence_views(rows: Seq<ShownEvidence>) -> Seq<ShownEvidenceView> {
    rows.map_values(|row: ShownEvidence| row@)
}

/// What the report shows of a transaction evidence: all but its times.
pub open spec fn shown_evidence(row: TransactionEvidence) -> ShownEvidenceView {
    ShownEvidenceView {
        id: row.id,
        seller_id: row.seller_id,
        buyer_id: row.buyer_id,
        status: row.status@,
        item_id: row.item_id,
        item_name: row.item_name@,
        item_price: row.item_price,
        item_description: row.item_description@,
        item_category_id: row.item_category_id,
        item_root_category_id: row.item_root_category_id,
    }
}

/// What the report shows of some transaction evidences, in their order.
pub open spec fn shown_evidences(rows: Seq<TransactionEvidence>) -> Seq<ShownEvidenceView> {
    rows.map_values(|row: TransactionEvidence| shown_evidence(row))
}

impl TransactionEvidence {
    /// The transaction evidence as the report shows it.
    pub fn shown(&self) -> (shown: ShownEvidence)
        ensures
            shown.id == self.id,
            shown.seller_id == self.seller_id,
            shown.buyer_id == self.buyer_id,
            shown.status@ == self.status@,
            shown.item_id == self.item_id,
            shown.item_name@ == self.item_name@,
            shown.item_price == self.item_price,
            shown.item_description@ == self.item_description@,
            shown.item_category_id == self.item_category_id,
            shown.item_root_category_id == self.item_root_category_id,
            shown@ == shown_evidence(*self),
    {
        ShownEvidence {
            id: self.id,
            seller_id: self.seller_id,
            buyer_id: self.buyer_id,
            status: self.status.clone(),
            item_id: self.item_id,
            item_name: self.item_name.clone(),
            item_price: self.item_price,
            item_description: self.item_description.clone(),
            item_category_id: self.item_category_id,
            item_root_category_id: self.item_root_category_id,
        }
    }
}

/// The model of the settings of a session.
pub struct SettingView {
    pub csrf_token: Seq<char>,
    pub payment_service_url: Seq<char>,
    pub user: Option<ShownUserView>,
    pub categories: Seq<Category>,
}

impl View for ResSetting {
    type V = SettingView;

    open spec fn view(&self) -> SettingView {
        SettingView {
            csrf_token: self.csrf_token@,
            payment_service_url: self.payment_service_url@,
            user: match self.user {
                Some(user) => Some(user@),
                None => None,
            },
            categories: self.categories@,
        }
    }
}

impl Category {
    /// The category that a row of the table `categories` holds.
    pub fn from_row(id: u32, parent_id: u32, category_name: String) -> (c: Category)
        ensures
            c == (Category { id, parent_id, category_name, parent_category_name: None }),
    {
        Category { id, parent_id, category_name, parent_category_name: None }
    }
}

impl UserSimple {
    /// What other users see of `user`.
    #[verifier::allow_in_spec]
    pub fn of(user: User) -> UserSimple
        returns
            (UserSimple {
                id: user.id,
                account_name: user.account_name,
                num_sell_items: user.num_sell_items,
            }),
    {
        UserSimple {
            id: user.id,
            account_name: user.account_name,
            num_sell_items: user.num_sell_items,
        }
    }
}

} // verus!
