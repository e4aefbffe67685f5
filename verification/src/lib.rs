//! The database-access core of a terminal SQL client: keyed sessions, a
//! request/response protocol with a reconnect-and-retry rule, and the
//! rendering of wire values as text.

pub mod browser;
pub mod cmd;
pub mod codec;
pub mod failure;
pub mod ids;
pub mod keys;
pub mod manager;
pub mod protocol;
pub mod registry;
pub mod retry;
pub mod session;
pub mod snippets;
pub mod status;
pub mod tabs;
pub mod text;
