//! Session and chat-list core of a terminal chat client.
//!
//! The library keeps a user's chat list ordered by recency, tracks unread
//! counts, overlays transient search results, and drives the single-retry
//! token-refresh protocol of the HTTP session. Network and terminal I/O live
//! outside; the library works on plain values and states what each operation
//! does in its contract.

pub mod api;
pub mod app;
pub mod auth;
pub mod chat;
pub mod contact;
pub mod factory;
pub mod helpers;
pub mod input;
pub mod schemas;
pub mod session;
pub mod ui;
pub mod window;
