//! A small catalog of pizza records: the record model, the record store,
//! the error kinds, and the three request handlers (list, create, update).

pub mod db;
pub mod error;
pub mod handlers;
pub mod ident;
pub mod models;
