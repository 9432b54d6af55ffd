//! Extraction of hyperlink targets from HTML text and their resolution into
//! absolute URLs without a query, against the address the text came from.

pub mod absolute;
pub mod event;
pub mod finder;
pub mod laws;
pub mod text;
pub mod tokenizer;

pub use absolute::{ParseFailure, ResolvedUrl};
pub use event::{Attr, Event, TagEvent, TagSide};
pub use finder::{LinkFinder, LinkStr};
