//! A verified core for a terminal file-sharing tool: a cursor-tracked list
//! for browsing remote files, an HTTP request/response model with the
//! server-side router and storage rules, and the client interaction state
//! machine that turns key input into transport operations.

pub mod app;
pub mod json;
pub mod names;
pub mod navlist;
pub mod protocol;
pub mod server;
pub mod textutil;
pub mod transport;
