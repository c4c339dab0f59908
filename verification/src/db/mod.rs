//! The record store behind the handlers.

pub mod database;
