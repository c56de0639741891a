//! Request handlers: what each route answers and what it does to the store.

pub mod admin;
pub mod routes;
