//! The decisions of a marketplace service: which pages of items it shows, how it finds
//! users and categories, and what it answers when something is missing.
//!
//! A handler is a value that asks for one operation at a time, a query of the database
//! for instance, and continues with the reply until it answers. The operations themselves
//! lie outside of the library.
pub mod category_items;
pub mod datetime;
pub mod error;
pub mod initialize;
pub mod items;
pub mod laws;
pub mod lookup;
pub mod model;
pub mod paging;
pub mod protocol;
pub mod reports;
pub mod settings;
pub mod startup;
pub mod text;
pub mod transactions;
