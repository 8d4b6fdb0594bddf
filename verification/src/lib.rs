//! Verified core of a small laboratory inventory system: the records and
//! their stored codes, accounts and signing in, the menus and who may use
//! them, how the lists search, and the audit trail.
pub mod audit;
pub mod auth;
pub mod menus;
pub mod models;
pub mod queries;
pub mod records;
pub mod text;
