//! Locating and recovering the search index that a documentation site embeds
//! in its generated pages.

pub mod address;
pub mod error;
pub mod literal;
pub mod locator;
pub mod search_index;
pub mod text;
pub mod unescape;
