//! Request construction, session sequencing and result rendering for a
//! read-only, single-shot directory search client.
//!
//! The crate holds the rules of the client: how a scope token and an attribute
//! list are resolved, which request each subcommand issues, in which order the
//! session steps follow each other, and how result entries are rendered as a
//! table or as JSON. Talking to the server is left to the caller, who performs
//! the actions that [`session::Session::step`] hands out.

pub mod attributes;
pub mod entry;
pub mod error;
pub mod json;
pub mod render;
pub mod request;
pub mod scope;
pub mod session;
pub mod table;
pub mod text;
