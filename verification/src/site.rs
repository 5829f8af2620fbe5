//! What the pages of the review site have in common.

use vstd::prelude::*;

verus! {

/// Where the review site lives.
pub const BASE_URL: &'static str = "https://letterboxd.com";

/// What a page says where the site has nothing at the address asked for.
pub const NOT_FOUND_MARKER: &'static str = "Sorry, we can’t find the page you’ve requested.";

/// The element that carries the title of a page.
pub const OG_TITLE: &'static str = r#"meta[property="og:title"]"#;

/// The element that carries the description of a page.
pub const DESCRIPTION: &'static str = r#"meta[name="description"]"#;

} // verus!
