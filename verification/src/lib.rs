//! A coffee-tasting journal: a validated tasting record, its plaintext
//! rendering, and the newest-first journal content it is prepended to.

pub mod entry;
pub mod journal;
pub mod text;
pub mod timestamp;

pub use entry::{CoffeeEntry, CoffeeEntryView, Preparation, ProcessingMethod, Roast};
pub use journal::{journal_with_entry, prepend_entry};
pub use timestamp::{Timestamp, TimestampView};
