//! A small song catalog: an in-memory record store with dense ids, a
//! case-insensitive substring search, a play counter, and the bookkeeping
//! that decides when accumulated writes are flushed to durable storage.

pub mod catalog;
pub mod flush;
pub mod ids;
pub mod laws;
pub mod song;
pub mod store;
pub mod text;
pub mod visits;

pub use catalog::Catalog;
pub use flush::{FlushAction, FlushEvent, FlushState};
pub use ids::parse_song_id;
pub use song::{field_for_key, Field, Song};
pub use store::{CatalogError, SongStore};
pub use text::{contains_folded, contains_text_ignoring_case, fold_text, text_eq};
pub use visits::VisitCounter;
