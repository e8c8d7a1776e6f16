//! What holds of whole runs of the handlers, and between them.
pub mod answers;
pub mod calendar;
pub mod category;
pub mod columns;
pub mod entries;
pub mod listing;
pub mod lists;
pub mod models;
pub mod numbers;
pub mod pages;
pub mod position;
pub mod reading;
pub mod reads;
pub mod requests;
pub mod run;
pub mod session;
pub mod shown;
pub mod statements;
pub mod transaction_steps;
pub mod transactions;
