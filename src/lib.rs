//! Ideas: submission, listing, development and deletion of ideas kept in a
//! keyed document store, with every decision stated and proved.

pub mod development;
pub mod endpoints;
pub mod error;
pub mod form;
pub mod home;
pub mod idea;
pub mod ident;
pub mod keys;
pub mod laws;
pub mod list_view;
pub mod store;

pub use idea::{Idea, IdeaRecord, RecordId};
