//! Point-of-sale domain library for the prison annex canteen: the records that
//! the canteen keeps, the rules that accept or reject them, the repositories
//! they are stored in, and the use cases that combine the two.

pub mod error;
pub mod text;
pub mod pattern;
pub mod datetime;
pub mod models;
pub mod repos;
pub mod legacy;
pub mod operators;
pub mod paging;
pub mod printer;
pub mod products;
pub mod transactions;
pub mod club;
pub mod auth;
pub mod statement;
pub mod receipt;
