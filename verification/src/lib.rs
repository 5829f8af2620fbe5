//! Retrieval and normalisation of film, profile and diary records.
//!
//! The library turns the text of pages and the answers of a film database
//! into records, keeps records that were fetched once, and says what to show
//! of them. It makes no request itself: a caller fetches the text that a
//! function asks for and hands it over.
//!
//! - `text`, `numbers`, `binary`, `rating`, `bio`: the display forms of
//!   texts, counts, durations, ratings and biographies.
//! - `markup`, `pattern`, `chance`, `header`: what other crates compute;
//!   `extract` picks single values out of their answers.
//! - `film`, `profile`, `diary`, `images`, `roulette`: the records that the
//!   pages give, and the addresses of the pages.
//! - `records`, `cache`: the records themselves, and the stores that keep
//!   them.
//! - `render`, `pager`: what is shown of a record.

pub mod binary;
pub mod bio;
pub mod cache;
pub mod chance;
pub mod diary;
pub mod extract;
pub mod film;
pub mod header;
pub mod images;
pub mod markup;
pub mod numbers;
pub mod pager;
pub mod pattern;
pub mod profile;
pub mod rating;
pub mod records;
pub mod render;
pub mod roulette;
pub mod site;
pub mod text;
