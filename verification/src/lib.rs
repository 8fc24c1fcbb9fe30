//! Primary/backup replicated order service: the data model, the in-memory
//! storage, the replication protocol and the request handling decisions,
//! each with a contract checked by Verus.
//!
//! The HTTP server, the JSON (de)serialisation and the network calls live
//! in `app/`, which drives the functions of this library.

pub mod models;
pub mod texto;
pub mod externos;
pub mod tabela;
pub mod storage;
pub mod sync;
pub mod api;
pub mod leis;
