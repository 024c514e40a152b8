//! Verified core of a self-hosted media manager: session tokens, the
//! library bookkeeping done around database writes, the answers of the
//! HTTP routes, and the choices made while fetching the media tools.
pub mod auth;
pub mod library;
pub mod routes;
pub mod bootstrap;
pub mod shared;
pub mod posters;
