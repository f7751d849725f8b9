//! The user and party tables: their rows, the queries the server sends and
//! what it makes of the rows that come back.
pub mod conn_handlers;
pub mod models;
pub mod models_init;
pub mod queries;
